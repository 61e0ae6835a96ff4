//! Extraction of road weather station and sensor reading records from XML
//! feeds, and the plan by which they are written to a relational store.
//!
//! A feed is read in one forward pass. [`parse_station`] turns a station feed
//! into a list of [`StationData`], [`parse_weather`] a weather feed into a
//! list of [`WeatherData`]; both return the records in document order, or the
//! failure that ends the run. [`insert_station_data`] and
//! [`insert_weather_data`] say which statement is executed with which values
//! for each record, [`create_mysql_tables`] which statements set up the
//! store, and [`get_opts`] how to connect to it.
//!
//! The library reads no file, no environment variable and no socket: it
//! takes bytes and values, and hands values back.
//!
//! # What is proved, and what is taken on trust
//!
//! The markup is tokenized by `quick_xml`. The module [`xml`] states what a
//! reader delivers as a sequence of events, and [`attributes`] what the
//! attributes of a tag are; these statements are believed, not proved. All
//! that is done with the events is verified against them: the extraction
//! functions return exactly what [`station::station_records`] and
//! [`weather::weather_records`] say of the events of the document. The
//! modules [`station_laws`] and [`weather_laws`] prove what follows for
//! feeds of a given shape.
//!
//! The store is not reached from here either. [`store::StoreModel`] says
//! what the statements are meant to do to the two tables, and the laws of
//! [`store`] are proved of that model.

pub mod attributes;
pub mod connection;
pub mod error;
pub mod records;
pub mod station;
pub mod station_laws;
pub mod store;
pub mod vocabulary;
pub mod weather;
pub mod weather_laws;
pub mod xml;

pub use connection::get_opts;
pub use connection::ConnectionDescriptor;
pub use error::ExtractError;
pub use records::StationData;
pub use records::WeatherData;
pub use station::parse_station;
pub use store::create_mysql_tables;
pub use store::insert_station_data;
pub use store::insert_weather_data;
pub use weather::parse_weather;
