[package]
name = "render_supervisor"
version = "0.1.0"
edition = "2021"
publish = false

[dependencies]
embedded-graphics = "=0.8.2"
edrv-st7735 = "=0.1.1"
embassy-embedded-hal = "0.2.0"
embassy-executor = "0.6.3"
embassy-sync = "0.6.2"
embassy-time = "0.3.2"
defmt = "0.3"
esp-backtrace = { version = "0.14.2", features = ["esp32c3"] }
esp-hal = { version = "0.22.0", features = ["esp32c3"] }
esp-hal-embassy = { version = "0.5.0", features = ["esp32c3"] }
esp-println = { version = "0.12.0", features = ["esp32c3"] }
