//! Dates and times as they travel between a request, a record and the
//! database.

pub mod date;
pub mod offset_date_time;
pub mod primitive_date_time;
pub mod time_of_day;

pub use self::date::Date;
pub use self::offset_date_time::OffsetDateTime;
pub use self::primitive_date_time::PrimitiveDateTime;
pub use self::time_of_day::Time;
