# battery_free_climat_sensor

Firmware library of a battery-free climate sensor: an ATmega328P board that
wakes up about once a minute, reads an AHT20 (temperature, humidity), a
BMP280 (temperature, pressure) and a VEML7700 (light) over I2C, and sends
the readings as a 26-byte frame over a 433 MHz transmitter.

`src/` is the verified library: the register values and command bytes the
drivers send, the decoding and conversion of what they read (including the
AHT20 CRC-8 and the BMP280 temperature compensation), the labeled readout
format of the frame, the Geiger counter's sixty-second window, the power
switching and wake-up state, and the small fixed-point helpers.
`tests/` runs the library on concrete values. `app/` is the firmware
around it: bus transfers, pins, timers, interrupts, sleep and the main loop.
