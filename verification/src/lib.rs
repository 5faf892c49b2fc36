//! Ingestion of table-soccer ranking data: a single-flight job supervisor and
//! the scraping pipeline that it admits.

pub mod background;
pub mod clock;
pub mod decimal;
pub mod errors;
pub mod markup;
pub mod names;
pub mod order;
pub mod params;
pub mod pem;
pub mod pipeline;
pub mod player;
pub mod ranking;
pub mod request;
pub mod run;
pub mod storage;
pub mod supervisor;
pub mod text;
pub mod words;
pub mod work;
