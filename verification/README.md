# stm32f411_nucleo

Firmware logic for an STM32F411 Nucleo board with an MPU6050, a QMC5883L,
a GPS receiver on USART1 and a quadrature-encoded motor, written in Verus.

`src/` is the verified library. Every peripheral routine is a *plan*: the
sequence of register operations (`bus::BusOp`) that it performs, computed
from its arguments and specified exactly. Laws state what the plans do:
the bytes an I2C transaction puts on the bus, the register fields each
initialisation and configuration leaves behind (over the register model
`bus::run_plan`), that the reporting variants do the same bus work as the
plain ones apart from their console output, the text a UART print sends.
Alongside the plans stand the quadrature encoder, the baud rate divisor, the receive decisions of the UARTs, sensor frame
decoding and hexadecimal formatting.

`app/` carries plans out against the memory-mapped registers through the
`stm32f4` peripheral access crate and holds the board programs, including
the floating-point parts (FPU assembly, matrices, the attitude filter).

`tests/` exercises the library on concrete values.
