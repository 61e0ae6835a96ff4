use road_weather::parse_station;
use road_weather::ExtractError;
use road_weather::StationData;

fn station(id: &str, name: &str, road: &str, county: &str, lat: &str, lon: &str) -> StationData {
    StationData {
        id: id.to_string(),
        name: name.to_string(),
        road_number: road.to_string(),
        county_number: county.to_string(),
        latitude: lat.to_string(),
        longitude: lon.to_string(),
    }
}

fn site(id: &str, name: &str, lat: (&str, &str), lon: (&str, &str)) -> String {
    format!(
        "<measurementSiteRecord id=\"{}\" version=\"1\">\n  <measurementSiteName><values><value lang=\"fi\">{}</value></values></measurementSiteName>\n  <roadNumber>4</roadNumber>\n  <countyNumber>12</countyNumber>\n  <pointCoordinates><latitude>{}</latitude><longitude>{}</longitude></pointCoordinates>\n  <pointByCoordinates><latitude>{}</latitude><longitude>{}</longitude></pointByCoordinates>\n</measurementSiteRecord>\n",
        id, name, lat.0, lon.0, lat.1, lon.1
    )
}

#[test]
fn one_site_with_repeated_coordinates() {
    let feed = "<?xml version=\"1.0\"?>\n<feed>\n  <measurementSiteRecord id=\"S1\">\n    <value>Kehä I</value>\n    <roadNumber>101</roadNumber>\n    <countyNumber>1</countyNumber>\n    <latitude>60.1</latitude>\n    <longitude>24.9</longitude>\n    <location>\n      <latitude>60.1</latitude>\n      <longitude>24.9</longitude>\n    </location>\n  </measurementSiteRecord>\n</feed>\n";
    let stations = parse_station(feed.as_bytes()).unwrap();
    assert_eq!(stations, vec![station("S1", "Kehä I", "101", "1", "60.1", "24.9")]);
}

#[test]
fn a_latitude_written_twice_is_stored_once() {
    let feed = "<measurementSiteRecord id=\"S1\"><a/><latitude>60.1</latitude><b>x</b><latitude>60.1</latitude><c/></measurementSiteRecord>";
    let stations = parse_station(feed.as_bytes()).unwrap();
    assert_eq!(stations.len(), 1);
    assert_eq!(stations[0].id, "S1");
    assert_eq!(stations[0].latitude, "60.1");
    assert_eq!(stations, vec![station("S1", "", "", "", "60.1", "")]);
}

#[test]
fn every_site_yields_one_station_with_the_first_coordinates() {
    let mut feed = String::from("<?xml version=\"1.0\" encoding=\"UTF-8\"?>\n<publication>\n");
    feed.push_str(&site("1001", "Tie 1", ("60.10", "60.19"), ("24.10", "24.19")));
    feed.push_str(&site("1002", "Tie 2", ("61.20", "61.29"), ("25.20", "25.29")));
    feed.push_str(&site("1003", "Tie 3", ("62.30", "62.39"), ("26.30", "26.39")));
    feed.push_str("</publication>\n");
    let stations = parse_station(feed.as_bytes()).unwrap();
    assert_eq!(
        stations,
        vec![
            station("1001", "Tie 1", "4", "12", "60.10", "24.10"),
            station("1002", "Tie 2", "4", "12", "61.20", "25.20"),
            station("1003", "Tie 3", "4", "12", "62.30", "26.30"),
        ]
    );
}

#[test]
fn second_occurrence_of_a_coordinate_is_not_read() {
    let feed = "<measurementSiteRecord id=\"S1\"><latitude>60.1</latitude><longitude>24.9</longitude><latitude>61.5</latitude><longitude>25.5</longitude></measurementSiteRecord>";
    let stations = parse_station(feed.as_bytes()).unwrap();
    assert_eq!(stations, vec![station("S1", "", "", "", "60.1", "24.9")]);
}

#[test]
fn third_occurrence_of_a_coordinate_is_read_again() {
    let feed = "<measurementSiteRecord id=\"S1\"><latitude>1</latitude><latitude>2</latitude><latitude>3</latitude></measurementSiteRecord>";
    let stations = parse_station(feed.as_bytes()).unwrap();
    assert_eq!(stations, vec![station("S1", "", "", "", "3", "")]);
}

#[test]
fn the_switch_is_kept_from_one_site_to_the_next() {
    let feed = "<feed><measurementSiteRecord id=\"A\"><latitude>1</latitude></measurementSiteRecord><measurementSiteRecord id=\"B\"><latitude>2</latitude><latitude>3</latitude></measurementSiteRecord></feed>";
    let stations = parse_station(feed.as_bytes()).unwrap();
    assert_eq!(
        stations,
        vec![station("A", "", "", "", "1", ""), station("B", "", "", "", "3", "")]
    );
}

#[test]
fn the_switch_is_reset_for_every_feed() {
    let feed = "<measurementSiteRecord id=\"A\"><latitude>1</latitude><longitude>2</longitude></measurementSiteRecord>";
    let first = parse_station(feed.as_bytes()).unwrap();
    let second = parse_station(feed.as_bytes()).unwrap();
    assert_eq!(first, vec![station("A", "", "", "", "1", "2")]);
    assert_eq!(second, first);
}

#[test]
fn a_passed_over_element_needs_no_open_station() {
    let feed = "<feed><measurementSiteRecord id=\"A\"><longitude>2</longitude></measurementSiteRecord></feed>";
    assert_eq!(parse_station(feed.as_bytes()), Ok(vec![station("A", "", "", "", "", "2")]));
}

#[test]
fn prefixed_names_are_recognized() {
    let feed = "<ns0:doc xmlns:ns0=\"urn:x\"><ns0:measurementSiteRecord id=\"12001\" version=\"3\"><ns0:value>Tie 4</ns0:value><ns0:roadNumber>4</ns0:roadNumber><ns0:countyNumber>12</ns0:countyNumber><ns0:latitude>65.0</ns0:latitude><ns0:longitude>25.4</ns0:longitude><ns0:latitude>65.0</ns0:latitude><ns0:longitude>25.4</ns0:longitude></ns0:measurementSiteRecord></ns0:doc>";
    let stations = parse_station(feed.as_bytes()).unwrap();
    assert_eq!(stations, vec![station("12001", "Tie 4", "4", "12", "65.0", "25.4")]);
}

#[test]
fn text_is_trimmed_and_unescaped() {
    let feed = "<measurementSiteRecord id=\"S1\">\n  <value>\n     Vt 4 &amp; Kt 51 &lt;pohjoinen&gt;\n  </value>\n</measurementSiteRecord>";
    let stations = parse_station(feed.as_bytes()).unwrap();
    assert_eq!(stations, vec![station("S1", "Vt 4 & Kt 51 <pohjoinen>", "", "", "", "")]);
}

#[test]
fn an_element_without_text_gives_the_empty_text() {
    let feed = "<measurementSiteRecord id=\"S1\"><value>x</value><value></value><roadNumber>   </roadNumber></measurementSiteRecord>";
    let stations = parse_station(feed.as_bytes()).unwrap();
    assert_eq!(stations, vec![station("S1", "", "", "", "", "")]);
}

#[test]
fn the_identifier_is_the_raw_value_of_the_last_id_attribute() {
    let feed = "<measurementSiteRecord version=\"2\" id=\"A&amp;1\" id='B'><value>n</value></measurementSiteRecord><measurementSiteRecord version=\"2\"></measurementSiteRecord><measurementSiteRecord id=\"A&amp;1\"/>";
    let stations = parse_station(feed.as_bytes()).unwrap();
    assert_eq!(
        stations,
        vec![station("B", "n", "", "", "", ""), station("", "", "", "", "", "")]
    );
    let one = parse_station(b"<measurementSiteRecord id=\"A&amp;1\">").unwrap();
    assert_eq!(one, vec![station("A&amp;1", "", "", "", "", "")]);
}

#[test]
fn elements_outside_the_vocabulary_are_ignored() {
    let feed = "<feed><!-- stations --><measurementSiteRecord id=\"S1\"><Value>no</Value><values>no</values><latitude/><roadNumber>7</roadNumber><![CDATA[<value>no</value>]]></measurementSiteRecord></feed>";
    let stations = parse_station(feed.as_bytes()).unwrap();
    assert_eq!(stations, vec![station("S1", "", "7", "", "", "")]);
}

#[test]
fn no_site_record_gives_an_empty_list() {
    let feed = "<feed><other>text</other><empty/></feed>";
    assert_eq!(parse_station(feed.as_bytes()), Ok(vec![]));
    assert_eq!(parse_station(b""), Ok(vec![]));
    assert_eq!(parse_station(b"   \n  "), Ok(vec![]));
}

#[test]
fn detail_before_any_site_record_is_refused() {
    let feed = "<feed><value>orphan</value></feed>";
    assert_eq!(parse_station(feed.as_bytes()), Err(ExtractError::NoOpenRecord { position: 13 }));
    let err = parse_station(b"<latitude>1</latitude>").unwrap_err();
    assert_eq!(err, ExtractError::NoOpenRecord { position: 10 });
    assert_eq!(err.position(), 10);
}

#[test]
fn feed_cut_off_inside_an_element_reports_the_offset() {
    let feed = "<feed><measurementSiteRecord id=\"S1\"><value>Keh";
    let err = parse_station(feed.as_bytes()).unwrap_err();
    assert_eq!(err, ExtractError::Malformed { position: feed.len() });
    assert_eq!(err.position(), 47);
}

#[test]
fn malformed_markup_is_refused() {
    assert_eq!(
        parse_station(b"<feed><measurementSiteRecord id=\"S1\"><value>x</val"),
        Err(ExtractError::Malformed { position: 46 })
    );
    assert_eq!(parse_station(b"<a><!-- never closed"), Err(ExtractError::Malformed { position: 3 }));
    assert_eq!(parse_station(b"<a></b>"), Err(ExtractError::Malformed { position: 5 }));
    assert!(matches!(
        parse_station(b"<measurementSiteRecord id=\"S1\"><value>a&bogus;b</value></measurementSiteRecord>"),
        Err(ExtractError::Malformed { .. })
    ));
}

#[test]
fn attributes_that_cannot_be_read_are_refused() {
    assert_eq!(
        parse_station(b"<measurementSiteRecord id=S1><value>x</value></measurementSiteRecord>"),
        Err(ExtractError::Malformed { position: 29 })
    );
    assert_eq!(
        parse_station(b"<measurementSiteRecord id=\"\xff\xfe\"></measurementSiteRecord>"),
        Err(ExtractError::Malformed { position: 31 })
    );
    assert_eq!(
        parse_station(b"<measurementSiteRecord id=\"ok\" broken more=\"1\"></measurementSiteRecord>"),
        Err(ExtractError::Malformed { position: 47 })
    );
}

#[test]
fn text_that_cannot_be_read_is_refused() {
    assert_eq!(
        parse_station(b"<measurementSiteRecord id=\"S1\"><value><b>bold</b></value></measurementSiteRecord>"),
        Err(ExtractError::Malformed { position: 41 })
    );
    assert_eq!(
        parse_station(b"<measurementSiteRecord id=\"S1\"><value>a</other></measurementSiteRecord>"),
        Err(ExtractError::Malformed { position: 41 })
    );
}

#[test]
fn nested_elements_of_the_same_name_are_read_through() {
    let feed = "<measurementSiteRecord id=\"S1\"><value>outer<value>inner</value><roadNumber>9</roadNumber></value><countyNumber>3</countyNumber></measurementSiteRecord>";
    let stations = parse_station(feed.as_bytes()).unwrap();
    assert_eq!(stations, vec![station("S1", "outer", "", "3", "", "")]);
}
