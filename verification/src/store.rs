//! What is sent to the store: the statements, the values bound to them for
//! each record, and the order in which a batch is written.
//!
//! The library does not talk to the store. It says which statement is
//! executed with which values, and decides, after each execution, whether
//! the batch goes on; the caller performs the executions.

use crate::records::StationData;
use crate::records::StationView;
use crate::records::WeatherData;
use crate::records::WeatherView;
use vstd::prelude::*;

verus! {

/// Creates the station table, keyed by the station's identifier.
pub const CREATE_STATION_TABLE: &'static str =
    "CREATE TABLE `station_data` (\n    `id` char(20) NOT NULL,\n    `lat` float DEFAULT NULL,\n    `lon` float DEFAULT NULL,\n    `name` varchar(30) DEFAULT NULL,\n    `road_number` int(10) DEFAULT NULL,\n    `county_number` int(10) DEFAULT NULL,\n    PRIMARY KEY (`id`)\n) ENGINE=InnoDB DEFAULT CHARSET=utf8mb4 ROW_FORMAT=COMPACT;";

/// Creates the reading table: a key that the store numbers by itself, an
/// index on the station's identifier, and a reference from it to the station
/// table.
pub const CREATE_WEATHER_TABLE: &'static str =
    "CREATE TABLE `weather_data` (\n    `id` int(11) NOT NULL AUTO_INCREMENT,\n    `station_id` char(20) DEFAULT NULL,\n    `timestamp` timestamp NULL DEFAULT NULL,\n    `road_temperature` float DEFAULT NULL,\n    `air_temperature` float DEFAULT NULL,\n    `air_humidity` float DEFAULT NULL,\n    `wind_speed` float DEFAULT NULL,\n    `wind_direction` varchar(10) DEFAULT NULL,\n    PRIMARY KEY (`id`),\n    KEY `station_id` (`station_id`),\n    CONSTRAINT `weather_data_ibfk_1` FOREIGN KEY (`station_id`) REFERENCES `station_data` (`id`)\n) ENGINE=InnoDB DEFAULT CHARSET=utf8mb4 ROW_FORMAT=COMPACT;";

/// Writes one station: a new row, or, where the identifier is already
/// stored, new values for every other column of its row.
pub const STATION_UPSERT: &'static str =
    "INSERT INTO station_data (id, lat, lon, name, road_number, county_number)\n    VALUES (:id, :latitude, :longitude, :name, :road_number, :county_number)\n    ON DUPLICATE KEY UPDATE lat=:latitude, lon=:longitude, name=:name, road_number=:road_number,\n    county_number=:county_number;";

/// Writes one reading, always as a new row.
pub const READING_INSERT: &'static str =
    "INSERT INTO weather_data\n    (station_id, timestamp, air_temperature, road_temperature, air_humidity, wind_speed, wind_direction)\n    VALUES (:id, :timestamp, :air_temperature, :road_temperature, :air_humidity, :wind_speed, :wind_direction)";

/// The statements that set up an empty store, in the order in which they are
/// to be executed: the station table first, since the reading table refers
/// to it.
pub fn create_mysql_tables() -> (statements: Vec<&'static str>)
    ensures
        statements@.len() == 2,
        statements@[0]@ == CREATE_STATION_TABLE@,
        statements@[1]@ == CREATE_WEATHER_TABLE@,
{
    let mut statements: Vec<&'static str> = Vec::new();
    statements.push(CREATE_STATION_TABLE);
    statements.push(CREATE_WEATHER_TABLE);
    statements
}

/// A value bound to a named parameter of a statement.
#[derive(Debug, Clone, PartialEq, Eq)]
pub struct Binding {
    pub name: String,
    pub value: String,
}

/// The mathematical value of a [`Binding`]: the parameter's name and the
/// value.
pub type BindingView = (Seq<char>, Seq<char>);

impl View for Binding {
    type V = BindingView;

    open spec fn view(&self) -> BindingView {
        (self.name@, self.value@)
    }
}

/// The values of a list of bindings, in order.
pub open spec fn binding_views(bindings: Seq<Binding>) -> Seq<BindingView> {
    bindings.map_values(|b: Binding| b@)
}

/// Binds `value` to the parameter `name`.
pub fn bind(name: &str, value: &String) -> (binding: Binding)
    ensures
        binding@ == (name@, value@),
{
    Binding { name: name.to_owned(), value: value.clone() }
}

/// What [`STATION_UPSERT`] is executed with for a station: all six fields,
/// each under the parameter name that the statement uses for it.
pub open spec fn station_parameters(station: StationView) -> Seq<BindingView> {
    seq![
        ("id"@, station.id),
        ("latitude"@, station.latitude),
        ("longitude"@, station.longitude),
        ("name"@, station.name),
        ("road_number"@, station.road_number),
        ("county_number"@, station.county_number),
    ]
}

/// What [`READING_INSERT`] is executed with for a reading: all seven fields,
/// each under the parameter name that the statement uses for it.
pub open spec fn reading_parameters(reading: WeatherView) -> Seq<BindingView> {
    seq![
        ("id"@, reading.station_id),
        ("timestamp"@, reading.timestamp),
        ("air_temperature"@, reading.air_temperature),
        ("road_temperature"@, reading.road_temperature),
        ("air_humidity"@, reading.air_humidity),
        ("wind_speed"@, reading.wind_speed),
        ("wind_direction"@, reading.wind_direction),
    ]
}

/// Whether no parameter name occurs twice.
pub open spec fn names_distinct(parameters: Seq<BindingView>) -> bool {
    forall|i: int, j: int|
        0 <= i < j < parameters.len() ==> (#[trigger] parameters[i]).0 != (
        #[trigger] parameters[j]).0
}

/// A station is bound under six names, no two of them the same: a list of
/// named parameters can be made of its bindings.
pub proof fn lemma_station_parameter_names(station: StationView)
    ensures
        station_parameters(station).len() == 6,
        names_distinct(station_parameters(station)),
{
    reveal_strlit("id");
    reveal_strlit("latitude");
    reveal_strlit("longitude");
    reveal_strlit("name");
    reveal_strlit("road_number");
    reveal_strlit("county_number");
    let parameters = station_parameters(station);
    assert forall|i: int, j: int| 0 <= i < j < parameters.len() implies (
    #[trigger] parameters[i]).0 != (#[trigger] parameters[j]).0 by {
        assert(parameters[i].0.len() != parameters[j].0.len());
    }
}

/// A reading is bound under seven names, no two of them the same: a list of
/// named parameters can be made of its bindings.
pub proof fn lemma_reading_parameter_names(reading: WeatherView)
    ensures
        reading_parameters(reading).len() == 7,
        names_distinct(reading_parameters(reading)),
{
    reveal_strlit("id");
    reveal_strlit("timestamp");
    reveal_strlit("air_temperature");
    reveal_strlit("road_temperature");
    reveal_strlit("air_humidity");
    reveal_strlit("wind_speed");
    reveal_strlit("wind_direction");
    let parameters = reading_parameters(reading);
    assert forall|i: int, j: int| 0 <= i < j < parameters.len() implies (
    #[trigger] parameters[i]).0 != (#[trigger] parameters[j]).0 by {
        assert(parameters[i].0.len() != parameters[j].0.len());
    }
}

/// The bindings with which the station statement is executed for `station`.
pub fn station_bindings(station: &StationData) -> (bindings: Vec<Binding>)
    ensures
        binding_views(bindings@) == station_parameters(station@),
{
    let mut bindings: Vec<Binding> = Vec::new();
    bindings.push(bind("id", &station.id));
    bindings.push(bind("latitude", &station.latitude));
    bindings.push(bind("longitude", &station.longitude));
    bindings.push(bind("name", &station.name));
    bindings.push(bind("road_number", &station.road_number));
    bindings.push(bind("county_number", &station.county_number));
    assert(binding_views(bindings@) =~= station_parameters(station@));
    bindings
}

/// The bindings with which the reading statement is executed for `reading`.
pub fn reading_bindings(reading: &WeatherData) -> (bindings: Vec<Binding>)
    ensures
        binding_views(bindings@) == reading_parameters(reading@),
{
    let mut bindings: Vec<Binding> = Vec::new();
    bindings.push(bind("id", &reading.station_id));
    bindings.push(bind("timestamp", &reading.timestamp));
    bindings.push(bind("air_temperature", &reading.air_temperature));
    bindings.push(bind("road_temperature", &reading.road_temperature));
    bindings.push(bind("air_humidity", &reading.air_humidity));
    bindings.push(bind("wind_speed", &reading.wind_speed));
    bindings.push(bind("wind_direction", &reading.wind_direction));
    assert(binding_views(bindings@) =~= reading_parameters(reading@));
    bindings
}

/// A batch to write: one statement, prepared once, and the bindings of each
/// execution, in order.
#[derive(Debug, Clone, PartialEq, Eq)]
pub struct WriteBatch {
    pub statement: &'static str,
    pub executions: Vec<Vec<Binding>>,
}

/// Plans the writing of stations: [`STATION_UPSERT`], executed once for each
/// station, in the order of the list, with the station's fields bound.
pub fn insert_station_data(station_data: &Vec<StationData>) -> (batch: WriteBatch)
    ensures
        batch.statement@ == STATION_UPSERT@,
        batch.executions@.len() == station_data@.len(),
        forall|i: int|
            0 <= i < station_data@.len() ==> binding_views(#[trigger] batch.executions@[i]@)
                == station_parameters(station_data@[i]@),
{
    let mut executions: Vec<Vec<Binding>> = Vec::new();
    let mut i: usize = 0;
    while i < station_data.len()
        invariant
            i <= station_data.len(),
            executions@.len() == i,
            forall|j: int|
                0 <= j < i ==> binding_views(#[trigger] executions@[j]@) == station_parameters(
                    station_data@[j]@,
                ),
        decreases station_data.len() - i,
    {
        executions.push(station_bindings(&station_data[i]));
        i += 1;
    }
    WriteBatch { statement: STATION_UPSERT, executions }
}

/// Plans the writing of readings: [`READING_INSERT`], executed once for each
/// reading, in the order of the list, with the reading's fields bound.
pub fn insert_weather_data(weather_data: &Vec<WeatherData>) -> (batch: WriteBatch)
    ensures
        batch.statement@ == READING_INSERT@,
        batch.executions@.len() == weather_data@.len(),
        forall|i: int|
            0 <= i < weather_data@.len() ==> binding_views(#[trigger] batch.executions@[i]@)
                == reading_parameters(weather_data@[i]@),
{
    let mut executions: Vec<Vec<Binding>> = Vec::new();
    let mut i: usize = 0;
    while i < weather_data.len()
        invariant
            i <= weather_data.len(),
            executions@.len() == i,
            forall|j: int|
                0 <= j < i ==> binding_views(#[trigger] executions@[j]@) == reading_parameters(
                    weather_data@[j]@,
                ),
        decreases weather_data.len() - i,
    {
        executions.push(reading_bindings(&weather_data[i]));
        i += 1;
    }
    WriteBatch { statement: READING_INSERT, executions }
}

/// What the writer of a batch does next.
#[derive(Debug, Clone, Copy, PartialEq, Eq, Structural)]
pub enum WriteStep {
    /// Execute the statement with the bindings at `index`.
    Execute { index: usize },
    /// Every execution succeeded: release the statement.
    Done,
    /// The execution at `index` failed: the rest of the batch is given up.
    Aborted { index: usize },
}

/// How far the writing of a batch has come.
#[derive(Debug, Clone, Copy, PartialEq, Eq, Structural)]
pub struct BatchProgress {
    /// The number of executions in the batch.
    pub total: usize,
    /// The number of executions that succeeded. They are the first ones.
    pub written: usize,
    /// Whether the execution after those failed.
    pub failed: bool,
}

impl BatchProgress {
    /// The progress of a batch is sound when it counts no more executions
    /// than there are, and a failed execution is one of them.
    pub open spec fn wf(self) -> bool {
        &&& self.written <= self.total
        &&& self.failed ==> self.written < self.total
    }

    /// What comes next: nothing more after a failure, else the first
    /// execution not yet made, else the end.
    pub open spec fn step(self) -> WriteStep {
        if self.failed {
            WriteStep::Aborted { index: self.written }
        } else if self.written < self.total {
            WriteStep::Execute { index: self.written }
        } else {
            WriteStep::Done
        }
    }

    /// The progress once the execution that was next has succeeded or
    /// failed.
    pub open spec fn after(self, succeeded: bool) -> BatchProgress {
        if succeeded {
            BatchProgress { written: (self.written + 1) as usize, ..self }
        } else {
            BatchProgress { failed: true, ..self }
        }
    }

    /// The start of a batch of `total` executions.
    pub fn start(total: usize) -> (progress: BatchProgress)
        ensures
            progress == (BatchProgress { total, written: 0, failed: false }),
            progress.wf(),
    {
        BatchProgress { total, written: 0, failed: false }
    }

    /// Says what the writer does next.
    pub fn next_step(&self) -> (step: WriteStep)
        ensures
            step == self.step(),
    {
        if self.failed {
            WriteStep::Aborted { index: self.written }
        } else if self.written < self.total {
            WriteStep::Execute { index: self.written }
        } else {
            WriteStep::Done
        }
    }

    /// Takes note of how the execution that was next ended.
    pub fn record(&mut self, succeeded: bool)
        requires
            old(self).wf(),
            old(self).step() is Execute,
        ensures
            *final(self) == old(self).after(succeeded),
            final(self).wf(),
    {
        if succeeded {
            self.written = self.written + 1;
        } else {
            self.failed = true;
        }
    }
}

/// The two tables of the store, as the statements mean them to be: at most
/// one station row for an identifier, and reading rows in the order in which
/// they were added, each with a key of its own.
pub struct StoreModel {
    /// The station rows, by identifier.
    pub stations: Map<Seq<char>, StationView>,
    /// The reading rows. The place of a row stands for its key.
    pub readings: Seq<WeatherView>,
}

impl StoreModel {
    /// The store after [`STATION_UPSERT`] was executed for `station`: its
    /// row is new, or takes the place of the row with the same identifier.
    pub open spec fn upsert_station(self, station: StationView) -> StoreModel {
        StoreModel { stations: self.stations.insert(station.id, station), ..self }
    }

    /// The store after [`READING_INSERT`] was executed for `reading`: one
    /// more row.
    pub open spec fn insert_reading(self, reading: WeatherView) -> StoreModel {
        StoreModel { readings: self.readings.push(reading), ..self }
    }

    /// The store after a batch of stations was written, every execution
    /// having succeeded.
    pub open spec fn write_stations(self, batch: Seq<StationView>) -> StoreModel
        decreases batch.len(),
    {
        if batch.len() == 0 {
            self
        } else {
            self.write_stations(batch.drop_last()).upsert_station(batch.last())
        }
    }

    /// The store after a batch of readings was written, every execution
    /// having succeeded.
    pub open spec fn write_readings(self, batch: Seq<WeatherView>) -> StoreModel
        decreases batch.len(),
    {
        if batch.len() == 0 {
            self
        } else {
            self.write_readings(batch.drop_last()).insert_reading(batch.last())
        }
    }
}

/// Writing a batch of one station is one execution of the statement.
pub proof fn lemma_station_write_one(store: StoreModel, station: StationView)
    ensures
        store.write_stations(seq![station]) == store.upsert_station(station),
{
    let batch = seq![station];
    assert(batch.drop_last() =~= Seq::<StationView>::empty());
    assert(store.write_stations(batch.drop_last()) == store);
}

/// Writing the same station again changes nothing: after the first write
/// and after the second, the store holds one row under the station's
/// identifier, with the station's values, and the same rows under every
/// other identifier.
pub proof fn lemma_station_write_idempotent(store: StoreModel, station: StationView)
    ensures
        store.write_stations(seq![station]).write_stations(seq![station]) == store.write_stations(
            seq![station],
        ),
        store.write_stations(seq![station]).stations.contains_key(station.id),
        store.write_stations(seq![station]).stations[station.id] == station,
        forall|id: Seq<char>|
            id != station.id ==> (store.write_stations(seq![station]).stations.contains_key(id)
                <==> store.stations.contains_key(id)),
{
    let once = store.write_stations(seq![station]);
    lemma_station_write_one(store, station);
    lemma_station_write_one(once, station);
    assert(once.upsert_station(station).stations =~= once.stations);
}

/// A later write of a station replaces the values that an earlier write
/// stored under the same identifier.
pub proof fn lemma_station_write_overwrites(
    store: StoreModel,
    earlier: StationView,
    later: StationView,
)
    requires
        earlier.id == later.id,
    ensures
        store.write_stations(seq![earlier, later]).stations[later.id] == later,
        store.write_stations(seq![earlier, later]).stations.dom() == store.stations.dom().insert(
            later.id,
        ),
{
    let batch = seq![earlier, later];
    assert(batch.drop_last() =~= seq![earlier]);
    lemma_station_write_one(store, earlier);
    assert(store.write_stations(batch) == store.upsert_station(earlier).upsert_station(later));
    assert(store.write_stations(batch).stations.dom() =~= store.stations.dom().insert(later.id));
}

/// Writing readings adds one row for each, in order, after the rows that
/// were there, and leaves the station rows alone.
pub proof fn lemma_reading_write_appends(store: StoreModel, batch: Seq<WeatherView>)
    ensures
        store.write_readings(batch).readings == store.readings + batch,
        store.write_readings(batch).stations == store.stations,
    decreases batch.len(),
{
    if batch.len() == 0 {
        assert(store.readings + batch =~= store.readings);
    } else {
        lemma_reading_write_appends(store, batch.drop_last());
        assert(store.readings + batch =~= (store.readings + batch.drop_last()).push(batch.last()));
    }
}

/// Writing the same reading twice adds two rows, both with its values:
/// nothing keeps a reading from being stored again.
pub proof fn lemma_reading_write_twice(store: StoreModel, reading: WeatherView)
    ensures
        store.write_readings(seq![reading]).write_readings(seq![reading]).readings.len()
            == store.readings.len() + 2,
        store.write_readings(seq![reading]).write_readings(seq![reading]).readings
            == store.readings.push(reading).push(reading),
{
    let once = store.write_readings(seq![reading]);
    lemma_reading_write_appends(store, seq![reading]);
    lemma_reading_write_appends(once, seq![reading]);
    assert((store.readings + seq![reading]) + seq![reading] =~= store.readings.push(reading).push(
        reading,
    ));
}

} // verus!
