//! Planning logic of a home power manager: tariff-window battery targets,
//! EV charging decisions, control-panel state and weather time stamps.
pub mod text;
pub mod weather_data;
pub mod calendar;
pub mod hass;
pub mod home_manager;
pub mod control_panel;
pub mod model_format;
pub mod toggle_panel;
