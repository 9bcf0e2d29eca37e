//! Timeline engine of a terminal project dashboard, with the state of the
//! dashboard around it.
//!
//! The engine shows projects as bars on a day axis: `lanes` gives
//! overlapping date ranges rows of their own, `viewport` keeps the zoom, the
//! scroll offset and the selection and maps days to grid columns, `ticks`
//! labels the axis, `render` draws all of it into character cells, and
//! `status_line` sums the viewport up in a line of text. `dashboard` holds
//! the state of the application and its reactions to keys and to the
//! messages of the data worker; `models`, `state`, `api` and `particles` hold
//! the records and small types it works on. Dates are day numbers
//! throughout; `calendar` converts them with `chrono`.

pub mod api;
pub mod calendar;
pub mod dashboard;
pub mod interval;
pub mod lanes;
pub mod models;
pub mod particles;
pub mod render;
pub mod state;
pub mod status_line;
pub mod ticks;
pub mod viewport;
