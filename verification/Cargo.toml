[package]
name = "sinus"
version = "0.1.0"
edition = "2021"
publish = false

[dependencies]
stm32h7xx-hal = { version = "0.16", features = ["stm32h750v", "rt", "sdmmc", "sdmmc-fatfs"] }
cortex-m = "0.7"
cortex-m-rt = "0.7"
embedded-sdmmc = "0.5"
libm = "0.2"
panic-halt = "0.2"
