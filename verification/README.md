# robot

Driver logic for the Robotbit expansion board of the BBC micro:bit (a PCA9685
PWM controller for motors, servos and steppers, and a TM1650 four-digit
display), with proved contracts.

Every driver operation computes the exact list of bus transfers it makes
(`bus::Transfer`); the program in `app/` performs them on the hardware.

- `src/pca9685.rs`, `src/tm1650.rs`: register maps, channel numbers, segment patterns.
- `src/bus.rs`: transfers and their mathematical view.
- `src/robotbit.rs`: the board driver (motors, stepper, servos, display, start-up).
- `src/laws.rs`: properties that hold across the driver's operations.
- `src/soft_i2c.rs`: a bit-banged I2C master, as pin steps.
- `src/line.rs`, `src/echo.rs`, `src/command.rs`: serial line input, the
  reversing echo, and the sensor console's commands.
- `src/compass.rs`, `src/leds.rs`: the compass quadrant and the LED exercises.
- `tests/`: tests on concrete values.
- `app/`: the micro:bit program that owns the bus, the pins and the serial port.
