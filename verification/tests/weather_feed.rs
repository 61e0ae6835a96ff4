use road_weather::parse_weather;
use road_weather::ExtractError;
use road_weather::WeatherData;

fn reading(fields: [&str; 7]) -> WeatherData {
    WeatherData {
        station_id: fields[0].to_string(),
        timestamp: fields[1].to_string(),
        road_temperature: fields[2].to_string(),
        air_temperature: fields[3].to_string(),
        air_humidity: fields[4].to_string(),
        wind_speed: fields[5].to_string(),
        wind_direction: fields[6].to_string(),
    }
}

#[test]
fn readings_come_in_document_order() {
    let feed = "<?xml version=\"1.0\"?>\n<siteMeasurements>\n <measurementSiteReference id=\"1001\" version=\"1\"></measurementSiteReference>\n <measurementTimeDefault>2018-03-01T12:00:00Z</measurementTimeDefault>\n <airTemperature>-3.5</airTemperature>\n <roadSurfaceTemperature>-1.2</roadSurfaceTemperature>\n <humidity>81</humidity>\n <windSpeed>4.2</windSpeed>\n <directionCompass>NW</directionCompass>\n <measurementSiteReference id=\"1002\"></measurementSiteReference>\n <measurementTimeDefault>2018-03-01T12:05:00Z</measurementTimeDefault>\n <windSpeed>0.0</windSpeed>\n</siteMeasurements>\n";
    let readings = parse_weather(feed.as_bytes()).unwrap();
    assert_eq!(
        readings,
        vec![
            reading(["1001", "2018-03-01T12:00:00Z", "-1.2", "-3.5", "81", "4.2", "NW"]),
            reading(["1002", "2018-03-01T12:05:00Z", "", "", "", "0.0", ""]),
        ]
    );
}

#[test]
fn a_repeated_detail_replaces_the_earlier_text() {
    let feed = "<measurementSiteReference id=\"7\"><humidity>50</humidity><humidity>60</humidity></measurementSiteReference>";
    let readings = parse_weather(feed.as_bytes()).unwrap();
    assert_eq!(readings, vec![reading(["7", "", "", "", "60", "", ""])]);
}

#[test]
fn station_vocabulary_means_nothing_in_a_weather_feed() {
    let feed = "<feed><measurementSiteRecord id=\"S1\"><latitude>60.1</latitude></measurementSiteRecord></feed>";
    assert_eq!(parse_weather(feed.as_bytes()), Ok(vec![]));
}

#[test]
fn an_empty_reference_element_opens_nothing() {
    let feed = "<feed><measurementSiteReference id=\"7\"/></feed>";
    assert_eq!(parse_weather(feed.as_bytes()), Ok(vec![]));
}

#[test]
fn detail_before_any_reference_is_refused() {
    let feed = "<feed><windSpeed>3</windSpeed></feed>";
    assert_eq!(parse_weather(feed.as_bytes()), Err(ExtractError::NoOpenRecord { position: 17 }));
}

#[test]
fn weather_feed_cut_off_is_refused() {
    let feed = "<measurementSiteReference id=\"7\"><humidity>5";
    assert_eq!(
        parse_weather(feed.as_bytes()),
        Err(ExtractError::Malformed { position: feed.len() })
    );
    assert_eq!(
        parse_weather(b"<measurementSiteReference id='7></measurementSiteReference>"),
        Err(ExtractError::Malformed { position: 1 })
    );
}
