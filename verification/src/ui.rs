//! The window's logic, without any widgets: page switching and refresh
//! scheduling, and the small tables and texts the cards are built from.

pub mod app;
pub mod chart;
pub mod aqi_card;
pub mod dashboard;
pub mod environment_card;
pub mod history_view;
pub mod metric_card;
pub mod metrics;
pub mod page;
pub mod sensor_card;
pub mod status;
pub mod tray;
pub mod trend;
