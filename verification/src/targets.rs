//! The supported target chips and the interrupt vectors of each.
//!
//! The chips of the family share most of their vectors, so the vectors are
//! kept in one table: each row holds a vector's name and the chips that have
//! a vector of this name.

use vstd::prelude::*;

verus! {

/// A supported target chip. A build selects at most one.
#[derive(Clone, Copy, Debug, PartialEq, Eq)]
pub enum TargetVariant {
    Stm32f401,
    Stm32f405,
    Stm32f407,
    Stm32f410,
    Stm32f411,
    Stm32f412,
    Stm32f413,
    Stm32f427,
    Stm32f429,
    Stm32f446,
    Stm32f469,
}

/// Marks the rows of the STM32F401.
pub const F401: u16 = 0x001;

/// Marks the rows of the STM32F405.
pub const F405: u16 = 0x002;

/// Marks the rows of the STM32F407.
pub const F407: u16 = 0x004;

/// Marks the rows of the STM32F410.
pub const F410: u16 = 0x008;

/// Marks the rows of the STM32F411.
pub const F411: u16 = 0x010;

/// Marks the rows of the STM32F412.
pub const F412: u16 = 0x020;

/// Marks the rows of the STM32F413.
pub const F413: u16 = 0x040;

/// Marks the rows of the STM32F427.
pub const F427: u16 = 0x080;

/// Marks the rows of the STM32F429.
pub const F429: u16 = 0x100;

/// Marks the rows of the STM32F446.
pub const F446: u16 = 0x200;

/// Marks the rows of the STM32F469.
pub const F469: u16 = 0x400;

/// Marks the rows of every chip.
pub const EVERY_CHIP: u16 = 0x7ff;

/// The interrupt vectors of the family, by name in alphabetical order, each
/// with the chips that have it.
pub const VECTORS: [(&'static str, u16); 136] = [
    ("ADC", EVERY_CHIP),
    ("CAN1_RX0", F405 | F407 | F412 | F413 | F427 | F429 | F446 | F469),
    ("CAN1_RX1", F405 | F407 | F412 | F413 | F427 | F429 | F446 | F469),
    ("CAN1_SCE", F405 | F407 | F412 | F413 | F427 | F429 | F446 | F469),
    ("CAN1_TX", F405 | F407 | F412 | F413 | F427 | F429 | F446 | F469),
    ("CAN2_RX0", F405 | F407 | F412 | F413 | F427 | F429 | F446 | F469),
    ("CAN2_RX1", F405 | F407 | F412 | F413 | F427 | F429 | F446 | F469),
    ("CAN2_SCE", F405 | F407 | F412 | F413 | F427 | F429 | F446 | F469),
    ("CAN2_TX", F405 | F407 | F412 | F413 | F427 | F429 | F446 | F469),
    ("CAN3_RX0", F413),
    ("CAN3_RX1", F413),
    ("CAN3_SCE", F413),
    ("CAN3_TX", F413),
    ("CRYP", F405 | F407 | F427 | F429 | F469),
    ("CRYPTO", F413),
    ("DCMI", F405 | F407 | F427 | F429 | F446 | F469),
    ("DFSDM1_FLT0", F412 | F413),
    ("DFSDM1_FLT1", F412 | F413),
    ("DFSDM2_FILTER1", F413),
    ("DFSDM2_FILTER2", F413),
    ("DFSDM2_FILTER3", F413),
    ("DFSDM2_FILTER4", F413),
    ("DMA1_STREAM0", EVERY_CHIP),
    ("DMA1_STREAM1", EVERY_CHIP),
    ("DMA1_STREAM2", EVERY_CHIP),
    ("DMA1_STREAM3", EVERY_CHIP),
    ("DMA1_STREAM4", EVERY_CHIP),
    ("DMA1_STREAM5", EVERY_CHIP),
    ("DMA1_STREAM6", EVERY_CHIP),
    ("DMA1_STREAM7", EVERY_CHIP),
    ("DMA2D", F429 | F469),
    ("DMA2_STREAM0", EVERY_CHIP),
    ("DMA2_STREAM1", EVERY_CHIP),
    ("DMA2_STREAM2", EVERY_CHIP),
    ("DMA2_STREAM3", EVERY_CHIP),
    ("DMA2_STREAM4", EVERY_CHIP),
    ("DMA2_STREAM5", EVERY_CHIP),
    ("DMA2_STREAM6", EVERY_CHIP),
    ("DMA2_STREAM7", EVERY_CHIP),
    ("DSIHOST", F469),
    ("ETH", F405 | F407 | F427 | F429 | F446 | F469),
    ("ETH_WKUP", F405 | F407 | F427 | F429 | F446 | F469),
    ("EXTI0", EVERY_CHIP),
    ("EXTI1", EVERY_CHIP),
    ("EXTI15_10", EVERY_CHIP),
    ("EXTI17_RTC_ALARM", F413),
    ("EXTI19", F410),
    ("EXTI2", EVERY_CHIP),
    ("EXTI20", F410),
    ("EXTI3", EVERY_CHIP),
    ("EXTI4", EVERY_CHIP),
    ("EXTI9_5", EVERY_CHIP),
    ("FLASH", F401 | F410 | F411 | F412 | F413 | F427 | F429 | F446 | F469),
    ("FMC", F427 | F429 | F446 | F469),
    ("FPU", EVERY_CHIP),
    ("FSMC", F405 | F407 | F412 | F413),
    ("HASH_RNG", F405 | F407 | F412 | F427 | F429 | F469),
    ("I2C1_ER", F401 | F405 | F407 | F410 | F411 | F412 | F427 | F429 | F446 | F469),
    ("I2C1_ERR", F413),
    ("I2C1_EV", F401 | F405 | F407 | F410 | F411 | F412 | F427 | F429 | F446 | F469),
    ("I2C1_EVT", F413),
    ("I2C2_ER", F401 | F405 | F407 | F410 | F411 | F412 | F427 | F429 | F446 | F469),
    ("I2C2_ERR", F413),
    ("I2C2_EV", F401 | F405 | F407 | F410 | F411 | F412 | F427 | F429 | F446 | F469),
    ("I2C2_EVT", F413),
    ("I2C3_ER", F401 | F405 | F407 | F411 | F412 | F413 | F427 | F429 | F446 | F469),
    ("I2C3_EV", F401 | F405 | F407 | F411 | F412 | F413 | F427 | F429 | F446 | F469),
    ("I2C4_ER", F410),
    ("I2C4_EV", F410),
    ("I2CFMP1ERROR", F413),
    ("I2CFMP1EVENT", F413),
    ("I2CFMP1_ERROR", F412),
    ("I2CFMP1_EVENT", F412),
    ("LCD_TFT", F407 | F427 | F429 | F446 | F469),
    ("LCD_TFT_1", F407 | F427 | F429 | F446 | F469),
    ("LPTIM1", F410),
    ("LPTIM1_OR_IT_EIT_23", F413),
    ("LTDC", F405),
    ("LTDC_ER", F405),
    ("OTG_FS", F401 | F405 | F407 | F411 | F412 | F413 | F427 | F429 | F446 | F469),
    ("OTG_FS_WKUP", F401 | F405 | F407 | F411 | F412 | F427 | F429 | F446 | F469),
    ("OTG_HS", F405 | F407 | F427 | F429 | F469),
    ("OTG_HS_EP1_IN", F405 | F407 | F427 | F429 | F469),
    ("OTG_HS_EP1_OUT", F405 | F407 | F427 | F429 | F469),
    ("OTG_HS_WKUP", F405 | F407 | F427 | F429 | F469),
    ("PVD", F401 | F405 | F407 | F410 | F411 | F412 | F413 | F427 | F429 | F469),
    ("PWM1_UP", F410),
    ("QUADSPI", F413 | F469),
    ("QUAD_SPI", F412),
    ("RCC", EVERY_CHIP),
    ("RNG", F410 | F413),
    ("RTC_ALARM", F401 | F405 | F407 | F410 | F411 | F412 | F427 | F429 | F446 | F469),
    ("RTC_WKUP", EVERY_CHIP),
    ("SAI1", F413 | F429 | F469),
    ("SDIO", F401 | F405 | F407 | F411 | F412 | F413 | F427 | F429 | F446 | F469),
    ("SPI1", EVERY_CHIP),
    ("SPI2", EVERY_CHIP),
    ("SPI3", F401 | F405 | F407 | F411 | F412 | F413 | F427 | F429 | F446 | F469),
    ("SPI4", F401 | F411 | F412 | F413 | F427 | F429 | F446 | F469),
    ("SPI5", F410 | F411 | F412 | F413 | F427 | F429 | F469),
    ("SPI6", F427 | F429 | F469),
    ("TAMP_STAMP", EVERY_CHIP),
    ("TIM12", F412),
    ("TIM13", F412),
    ("TIM14", F412),
    ("TIM1_BRK_TIM9", EVERY_CHIP),
    ("TIM1_CC", EVERY_CHIP),
    ("TIM1_TRG_COM_TIM11", EVERY_CHIP),
    ("TIM1_UP_TIM10", F401 | F405 | F407 | F411 | F412 | F413 | F427 | F429 | F446 | F469),
    ("TIM2", F401 | F405 | F407 | F411 | F412 | F413 | F427 | F429 | F446 | F469),
    ("TIM3", F401 | F405 | F407 | F411 | F412 | F413 | F427 | F429 | F446 | F469),
    ("TIM4", F401 | F405 | F407 | F411 | F412 | F413 | F427 | F429 | F446 | F469),
    ("TIM5", EVERY_CHIP),
    ("TIM6_DAC", F405 | F407 | F427 | F429 | F446 | F469),
    ("TIM6_DAC1", F410),
    ("TIM6_DACUNDER", F412),
    ("TIM6_GLB_IT_DAC1_DAC2", F413),
    ("TIM7", F405 | F407 | F412 | F413 | F427 | F429 | F446 | F469),
    ("TIM8_BRK_TIM12", F405 | F407 | F413 | F427 | F429 | F446 | F469),
    ("TIM8_CC", F405 | F407 | F412 | F413 | F427 | F429 | F446 | F469),
    ("TIM8_TRG_COM_TIM14", F405 | F407 | F413 | F427 | F429 | F446 | F469),
    ("TIM8_UP_TIM13", F405 | F407 | F413 | F427 | F429 | F446 | F469),
    ("UART10", F413),
    ("UART4", F405 | F407 | F427 | F429 | F446 | F469),
    ("UART5", F405 | F407 | F413 | F427 | F429 | F446 | F469),
    ("UART7", F427 | F429 | F446 | F469),
    ("UART8", F427 | F429 | F446 | F469),
    ("UART9", F413),
    ("USART1", EVERY_CHIP),
    ("USART2", EVERY_CHIP),
    ("USART3", F405 | F407 | F412 | F413 | F427 | F429 | F446 | F469),
    ("USART4", F413),
    ("USART6", EVERY_CHIP),
    ("USART7", F413),
    ("USART8", F413),
    ("WWDG", F405 | F407 | F410 | F411 | F412 | F427 | F429 | F446 | F469),
];

impl TargetVariant {
    /// The mark of the chip in the table of vectors.
    pub open spec fn spec_mark(self) -> u16 {
        match self {
            TargetVariant::Stm32f401 => F401,
            TargetVariant::Stm32f405 => F405,
            TargetVariant::Stm32f407 => F407,
            TargetVariant::Stm32f410 => F410,
            TargetVariant::Stm32f411 => F411,
            TargetVariant::Stm32f412 => F412,
            TargetVariant::Stm32f413 => F413,
            TargetVariant::Stm32f427 => F427,
            TargetVariant::Stm32f429 => F429,
            TargetVariant::Stm32f446 => F446,
            TargetVariant::Stm32f469 => F469,
        }
    }

    /// The mark of the chip in the table of vectors.
    #[verifier::when_used_as_spec(spec_mark)]
    pub fn mark(self) -> (mark: u16)
        ensures
            mark == self.spec_mark(),
    {
        match self {
            TargetVariant::Stm32f401 => F401,
            TargetVariant::Stm32f405 => F405,
            TargetVariant::Stm32f407 => F407,
            TargetVariant::Stm32f410 => F410,
            TargetVariant::Stm32f411 => F411,
            TargetVariant::Stm32f412 => F412,
            TargetVariant::Stm32f413 => F413,
            TargetVariant::Stm32f427 => F427,
            TargetVariant::Stm32f429 => F429,
            TargetVariant::Stm32f446 => F446,
            TargetVariant::Stm32f469 => F469,
        }
    }
}

/// Whether row `row` of the table of vectors is a vector of the chip.
pub open spec fn has_vector(variant: TargetVariant, row: int) -> bool {
    VECTORS[row].1 & variant.mark() != 0
}

/// The names in the first `rows` rows of the table that are vectors of the
/// chip.
pub open spec fn vector_names_among(variant: TargetVariant, rows: int) -> Set<Seq<char>> {
    Set::new(
        |name: Seq<char>|
            exists|row: int| 0 <= row < rows && has_vector(variant, row) && VECTORS[row].0@ == name,
    )
}

/// The names of the interrupt vectors of a chip.
pub open spec fn vector_names(variant: TargetVariant) -> Set<Seq<char>> {
    vector_names_among(variant, VECTORS@.len() as int)
}

/// The texts of a list of names, in the list's order.
pub open spec fn names_view(names: Seq<String>) -> Seq<Seq<char>> {
    names.map_values(|name: String| name@)
}

impl TargetVariant {
    /// Collects the names of the interrupt vectors of the chip from the
    /// table.
    pub(crate) fn vectors(self) -> (names: Vec<String>)
        ensures
            names_view(names@).to_set() == vector_names(self),
    {
        let mut names: Vec<String> = Vec::new();
        let mut row: usize = 0;
        while row < VECTORS.len()
            invariant
                row <= VECTORS@.len(),
                names_view(names@).to_set() =~= vector_names_among(self, row as int),
            decreases VECTORS@.len() - row,
        {
            let (name, chips) = VECTORS[row];
            let ghost before = names@;
            if chips & self.mark() != 0 {
                names.push(name.to_owned());
                assert(names_view(names@) =~= names_view(before).push(name@));
                proof {
                    names_view(before).lemma_push_to_set_commute(name@);
                }
            }
            assert(vector_names_among(self, row + 1) =~= (if has_vector(self, row as int) {
                vector_names_among(self, row as int).insert(name@)
            } else {
                vector_names_among(self, row as int)
            }));
            row += 1;
        }
        names
    }
}

} // verus!
