use road_weather::create_mysql_tables;
use road_weather::insert_station_data;
use road_weather::insert_weather_data;
use road_weather::store::bind;
use road_weather::store::reading_bindings;
use road_weather::store::station_bindings;
use road_weather::store::BatchProgress;
use road_weather::store::Binding;
use road_weather::store::WriteStep;
use road_weather::store::CREATE_STATION_TABLE;
use road_weather::store::CREATE_WEATHER_TABLE;
use road_weather::store::READING_INSERT;
use road_weather::store::STATION_UPSERT;
use road_weather::StationData;
use road_weather::WeatherData;

fn pair(name: &str, value: &str) -> Binding {
    Binding { name: name.to_string(), value: value.to_string() }
}

fn sample_station() -> StationData {
    StationData {
        id: "1001".to_string(),
        name: "Tie 4 Oulu".to_string(),
        road_number: "4".to_string(),
        county_number: "12".to_string(),
        latitude: "65.01".to_string(),
        longitude: "25.47".to_string(),
    }
}

fn sample_reading() -> WeatherData {
    WeatherData {
        station_id: "1001".to_string(),
        timestamp: "2018-03-01T12:00:00Z".to_string(),
        road_temperature: "-1.2".to_string(),
        air_temperature: "-3.5".to_string(),
        air_humidity: "81".to_string(),
        wind_speed: "4.2".to_string(),
        wind_direction: "NW".to_string(),
    }
}

#[test]
fn a_station_binds_all_six_fields_by_name() {
    assert_eq!(
        station_bindings(&sample_station()),
        vec![
            pair("id", "1001"),
            pair("latitude", "65.01"),
            pair("longitude", "25.47"),
            pair("name", "Tie 4 Oulu"),
            pair("road_number", "4"),
            pair("county_number", "12"),
        ]
    );
    assert_eq!(bind("id", &"x".to_string()), pair("id", "x"));
}

#[test]
fn a_reading_binds_all_seven_fields_by_name() {
    assert_eq!(
        reading_bindings(&sample_reading()),
        vec![
            pair("id", "1001"),
            pair("timestamp", "2018-03-01T12:00:00Z"),
            pair("air_temperature", "-3.5"),
            pair("road_temperature", "-1.2"),
            pair("air_humidity", "81"),
            pair("wind_speed", "4.2"),
            pair("wind_direction", "NW"),
        ]
    );
}

#[test]
fn every_parameter_of_a_statement_is_bound() {
    for binding in station_bindings(&sample_station()) {
        assert!(STATION_UPSERT.contains(&format!(":{}", binding.name)));
    }
    for binding in reading_bindings(&sample_reading()) {
        assert!(READING_INSERT.contains(&format!(":{}", binding.name)));
    }
}

#[test]
fn no_parameter_name_is_bound_twice() {
    let station = station_bindings(&sample_station());
    let reading = reading_bindings(&sample_reading());
    for bindings in [station, reading] {
        for i in 0..bindings.len() {
            for j in (i + 1)..bindings.len() {
                assert_ne!(bindings[i].name, bindings[j].name);
            }
        }
    }
}

#[test]
fn writing_a_station_twice_executes_the_upsert_twice_with_the_same_values() {
    let batch = insert_station_data(&vec![sample_station(), sample_station()]);
    assert_eq!(batch.statement, STATION_UPSERT);
    assert!(batch.statement.starts_with("INSERT INTO station_data"));
    assert!(batch.statement.contains("ON DUPLICATE KEY UPDATE"));
    assert_eq!(batch.executions.len(), 2);
    assert_eq!(batch.executions[0], station_bindings(&sample_station()));
    assert_eq!(batch.executions[1], batch.executions[0]);
}

#[test]
fn writing_a_reading_twice_executes_the_plain_insert_twice() {
    let batch = insert_weather_data(&vec![sample_reading(), sample_reading()]);
    assert_eq!(batch.statement, READING_INSERT);
    assert!(batch.statement.starts_with("INSERT INTO weather_data"));
    assert!(!batch.statement.contains("ON DUPLICATE KEY"));
    assert_eq!(batch.executions.len(), 2);
    assert_eq!(batch.executions[0], reading_bindings(&sample_reading()));
    assert_eq!(batch.executions[1], batch.executions[0]);
}

#[test]
fn a_batch_keeps_the_order_of_the_records() {
    let mut second = sample_station();
    second.id = "1002".to_string();
    let batch = insert_station_data(&vec![sample_station(), second.clone()]);
    assert_eq!(batch.executions[0][0], pair("id", "1001"));
    assert_eq!(batch.executions[1][0], pair("id", "1002"));
    assert_eq!(batch.executions[1], station_bindings(&second));
}

#[test]
fn an_empty_batch_has_no_execution() {
    assert!(insert_station_data(&vec![]).executions.is_empty());
    assert!(insert_weather_data(&vec![]).executions.is_empty());
    assert_eq!(BatchProgress::start(0).next_step(), WriteStep::Done);
}

#[test]
fn a_batch_is_written_in_order_to_its_end() {
    let mut progress = BatchProgress::start(3);
    assert_eq!(progress.next_step(), WriteStep::Execute { index: 0 });
    progress.record(true);
    assert_eq!(progress.next_step(), WriteStep::Execute { index: 1 });
    progress.record(true);
    assert_eq!(progress.next_step(), WriteStep::Execute { index: 2 });
    progress.record(true);
    assert_eq!(progress.next_step(), WriteStep::Done);
    assert_eq!(progress, BatchProgress { total: 3, written: 3, failed: false });
}

#[test]
fn a_failed_execution_ends_the_batch() {
    let mut progress = BatchProgress::start(3);
    progress.record(true);
    progress.record(false);
    assert_eq!(progress.next_step(), WriteStep::Aborted { index: 1 });
    assert_eq!(progress, BatchProgress { total: 3, written: 1, failed: true });
}

#[test]
fn the_station_table_comes_before_the_reading_table() {
    let statements = create_mysql_tables();
    assert_eq!(statements, vec![CREATE_STATION_TABLE, CREATE_WEATHER_TABLE]);
    assert!(statements[0].starts_with("CREATE TABLE `station_data`"));
    assert!(statements[0].contains("PRIMARY KEY (`id`)"));
    assert!(statements[1].starts_with("CREATE TABLE `weather_data`"));
    assert!(statements[1].contains("`id` int(11) NOT NULL AUTO_INCREMENT"));
    assert!(statements[1].contains("KEY `station_id` (`station_id`)"));
    assert!(statements[1]
        .contains("FOREIGN KEY (`station_id`) REFERENCES `station_data` (`id`)"));
}
