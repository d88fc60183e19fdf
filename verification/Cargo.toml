[package]
name = "madquatter"
version = "0.1.0"
edition = "2021"
publish = false

[dependencies]
zerocopy = { version = "=0.8.63", features = ["derive"] }
postcard = "=1.1.3"
serde = { version = "=1.0.229", default-features = false, features = ["derive"] }
nalgebra = "=0.33.3"
num-traits = "=0.2.19"
static_cell = "=2.1.1"
embassy-executor = "=0.10.0"
embassy-nrf = { version = "=0.11.0", features = ["nrf52833", "time-driver-rtc1", "time", "gpiote"] }
embassy-sync = "=0.8.0"
embassy-time = "=0.5.1"
lsm303agr = { version = "=1.1.0", features = ["async"] }
mpu6050-async = "=0.1.1"
defmt-rtt = "*"
panic-probe = "*"
