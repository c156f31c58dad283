# home_assist

A home power manager for a Raspberry Pi: it forecasts tomorrow's solar output,
sets the home battery's minimum charge for the cheap overnight tariff, and
switches the car charger off once the car reaches its target charge.

- `src/` is the verified library (Verus): the tariff window and the control
  cycle's state machine, the battery target, the charger decision, the control
  panel's state, reading the weather service's time stamps, calendar dates,
  and the text sent to Home Assistant.
- `app/` is the program around it: the network calls, the GPIO pins, the
  machine-learning model (floating point), the configuration from the
  environment, and the offline trainer of the model.
- `tests/` runs the library on concrete values.
