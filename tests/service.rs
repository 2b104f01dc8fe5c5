use mmdb_grpc::health::{HealthService, ServingStatus};
use mmdb_grpc::service::CityService;
use mmdb_grpc::db::Snapshot;
use mmdb_grpc::image::image_is_sound;
use mmdb_grpc::status::StatusCode;

// Builders for a small database image in the reader's binary format.

fn ctrl(type_num: u8, size: usize, out: &mut Vec<u8>) {
    assert!(size < 29);
    if type_num <= 7 {
        out.push((type_num << 5) | size as u8);
    } else {
        out.push(size as u8);
        out.push(type_num - 7);
    }
}

fn text(s: &str, out: &mut Vec<u8>) {
    ctrl(2, s.len(), out);
    out.extend_from_slice(s.as_bytes());
}

fn map_of(n: usize, out: &mut Vec<u8>) {
    ctrl(7, n, out);
}

fn uint(type_num: u8, v: u64, width: usize, out: &mut Vec<u8>) {
    ctrl(type_num, width, out);
    for i in (0..width).rev() {
        out.push((v >> (8 * i)) as u8);
    }
}

fn double(v: f64, out: &mut Vec<u8>) {
    ctrl(3, 8, out);
    out.extend_from_slice(&v.to_be_bytes());
}

fn boolean(v: bool, out: &mut Vec<u8>) {
    ctrl(14, v as usize, out);
}

fn names(xs: &[(&str, &str)], out: &mut Vec<u8>) {
    text("names", out);
    map_of(xs.len(), out);
    for (k, v) in xs {
        text(k, out);
        text(v, out);
    }
}

#[derive(Clone, Copy)]
enum Slot {
    Empty,
    Node(usize),
    Data(usize),
}

/// An IPv4 database holding `entries`, each an address and its encoded record.
fn image(entries: &[([u8; 4], Vec<u8>)], database_type: &str, epoch: u64) -> Vec<u8> {
    let mut nodes: Vec<[Slot; 2]> = vec![[Slot::Empty, Slot::Empty]];
    let mut data: Vec<u8> = Vec::new();
    for (addr, record) in entries {
        let offset = data.len();
        data.extend_from_slice(record);
        let mut n = 0usize;
        for i in 0..32 {
            let bit = ((addr[i / 8] >> (7 - i % 8)) & 1) as usize;
            if i == 31 {
                nodes[n][bit] = Slot::Data(offset);
            } else {
                n = match nodes[n][bit] {
                    Slot::Node(m) => m,
                    _ => {
                        nodes.push([Slot::Empty, Slot::Empty]);
                        let m = nodes.len() - 1;
                        nodes[n][bit] = Slot::Node(m);
                        m
                    }
                };
            }
        }
    }
    let count = nodes.len();
    let mut out: Vec<u8> = Vec::new();
    for node in &nodes {
        for slot in node {
            let v = match *slot {
                Slot::Empty => count,
                Slot::Node(m) => m,
                Slot::Data(off) => count + 16 + off,
            };
            out.extend_from_slice(&[(v >> 16) as u8, (v >> 8) as u8, v as u8]);
        }
    }
    out.extend_from_slice(&[0u8; 16]);
    out.extend_from_slice(&data);
    out.extend_from_slice(b"\xab\xcd\xefMaxMind.com");
    map_of(9, &mut out);
    text("binary_format_major_version", &mut out);
    uint(5, 2, 1, &mut out);
    text("binary_format_minor_version", &mut out);
    uint(5, 0, 0, &mut out);
    text("build_epoch", &mut out);
    uint(9, epoch, 8, &mut out);
    text("database_type", &mut out);
    text(database_type, &mut out);
    text("description", &mut out);
    map_of(1, &mut out);
    text("en", &mut out);
    text("Test database", &mut out);
    text("ip_version", &mut out);
    uint(5, 4, 1, &mut out);
    text("languages", &mut out);
    ctrl(11, 2, &mut out);
    text("en", &mut out);
    text("ja", &mut out);
    text("node_count", &mut out);
    uint(6, count as u64, 4, &mut out);
    text("record_size", &mut out);
    uint(5, 24, 1, &mut out);
    out
}

/// 1.2.3.4: a city with two names, a country in the EU and a location.
fn testville() -> Vec<u8> {
    let mut r = Vec::new();
    map_of(3, &mut r);
    text("city", &mut r);
    map_of(2, &mut r);
    text("geoname_id", &mut r);
    uint(6, 4242, 2, &mut r);
    names(&[("en", "Testville"), ("ja", "テスト市")], &mut r);
    text("country", &mut r);
    map_of(3, &mut r);
    text("iso_code", &mut r);
    text("TV", &mut r);
    text("is_in_european_union", &mut r);
    boolean(true, &mut r);
    names(&[("en", "Testland"), ("fr", "Testlande")], &mut r);
    text("location", &mut r);
    map_of(3, &mut r);
    text("latitude", &mut r);
    double(35.5, &mut r);
    text("longitude", &mut r);
    double(-120.25, &mut r);
    text("time_zone", &mut r);
    text("Asia/Tokyo", &mut r);
    r
}

/// 5.6.7.8: a continent, two subdivisions, a postal code and traits.
fn elsewhere() -> Vec<u8> {
    let mut r = Vec::new();
    map_of(4, &mut r);
    text("continent", &mut r);
    map_of(2, &mut r);
    text("code", &mut r);
    text("AS", &mut r);
    names(&[("en", "Asia")], &mut r);
    text("subdivisions", &mut r);
    ctrl(11, 2, &mut r);
    map_of(1, &mut r);
    text("iso_code", &mut r);
    text("13", &mut r);
    map_of(1, &mut r);
    text("geoname_id", &mut r);
    uint(6, 7, 1, &mut r);
    text("postal", &mut r);
    map_of(1, &mut r);
    text("code", &mut r);
    text("100-0001", &mut r);
    text("traits", &mut r);
    map_of(1, &mut r);
    text("is_anonymous_proxy", &mut r);
    boolean(true, &mut r);
    r
}

fn fixture() -> Vec<u8> {
    image(&[([1, 2, 3, 4], testville()), ([5, 6, 7, 8], elsewhere())], "Test-City", 1_600_000_000)
}

/// The same addresses with other names, for reload checks.
fn second_fixture() -> Vec<u8> {
    let mut r = Vec::new();
    map_of(1, &mut r);
    text("city", &mut r);
    map_of(1, &mut r);
    names(&[("en", "Newtown")], &mut r);
    image(&[([1, 2, 3, 4], r)], "Test-City-2", 1_700_000_000)
}

fn service() -> CityService {
    CityService::new(Snapshot::open(fixture()).ok().unwrap())
}

fn codes(xs: &[&str]) -> Vec<String> {
    xs.iter().map(|s| s.to_string()).collect()
}

fn pairs(xs: &[(&str, &str)]) -> Vec<(String, String)> {
    xs.iter().map(|(k, v)| (k.to_string(), v.to_string())).collect()
}

fn city_names(svc: &CityService, ip: &str, locales: &[&str]) -> Option<Vec<(String, String)>> {
    let reply = svc.lookup(ip, &codes(locales)).ok().unwrap();
    reply.city.unwrap().names
}

#[test]
fn lookup_with_one_locale_keeps_that_name() {
    let svc = service();
    assert_eq!(city_names(&svc, "1.2.3.4", &["ja"]), Some(pairs(&[("ja", "テスト市")])));
}

#[test]
fn lookup_without_locales_keeps_every_name() {
    let svc = service();
    assert_eq!(
        city_names(&svc, "1.2.3.4", &[]),
        Some(pairs(&[("en", "Testville"), ("ja", "テスト市")]))
    );
}

#[test]
fn lookup_with_unknown_locale_gives_empty_names() {
    let svc = service();
    assert_eq!(city_names(&svc, "1.2.3.4", &["fr"]), Some(Vec::new()));
}

#[test]
fn lookup_of_out_of_range_text_is_invalid_argument() {
    let svc = service();
    let err = svc.lookup("999.999.999.999", &Vec::new()).err().unwrap();
    assert_eq!(err.code, StatusCode::InvalidArgument);
    assert_eq!(err.message, "The request must be IP address but given '999.999.999.999'");
}

#[test]
fn lookup_of_non_address_is_invalid_argument() {
    let svc = service();
    for _ in 0..3 {
        let err = svc.lookup("not-an-ip", &Vec::new()).err().unwrap();
        assert_eq!(err.code, StatusCode::InvalidArgument);
    }
}

#[test]
fn lookup_of_unassigned_address_is_not_found() {
    let svc = service();
    for ip in ["9.9.9.9", "1.2.3.5", "::1"] {
        let err = svc.lookup(ip, &Vec::new()).err().unwrap();
        assert_eq!(err.code, StatusCode::NotFound);
        assert_eq!(err.message, "Address not found in database");
    }
}

#[test]
fn lookup_passes_other_fields_through() {
    let svc = service();
    let reply = svc.lookup("1.2.3.4", &codes(&["en"])).ok().unwrap();
    let city = reply.city.unwrap();
    assert_eq!(city.geoname_id, Some(4242));
    let country = reply.country.unwrap();
    assert_eq!(country.code, Some("TV".to_string()));
    assert_eq!(country.is_in_european_union, Some(true));
    assert_eq!(country.names, Some(pairs(&[("en", "Testland")])));
    let location = reply.location.unwrap();
    assert_eq!(location.latitude_bits.map(f64::from_bits), Some(35.5));
    assert_eq!(location.longitude_bits.map(f64::from_bits), Some(-120.25));
    assert_eq!(location.metro_code, None);
    assert_eq!(location.time_zone, Some("Asia/Tokyo".to_string()));
    assert!(reply.continent.is_none());
    assert!(reply.registered_country.is_none());
    assert!(reply.represented_country.is_none());
    assert!(reply.postal.is_none());
    assert!(reply.subdivisions.is_none());
    assert!(reply.traits.is_none());
}

#[test]
fn lookup_keeps_subdivision_order_and_traits() {
    let svc = service();
    let reply = svc.lookup("5.6.7.8", &codes(&["ja"])).ok().unwrap();
    let continent = reply.continent.unwrap();
    assert_eq!(continent.code, Some("AS".to_string()));
    assert_eq!(continent.names, Some(Vec::new()));
    let subs = reply.subdivisions.unwrap();
    assert_eq!(subs.len(), 2);
    assert_eq!(subs[0].iso_code, Some("13".to_string()));
    assert_eq!(subs[0].geoname_id, None);
    assert_eq!(subs[1].iso_code, None);
    assert_eq!(subs[1].geoname_id, Some(7));
    assert_eq!(reply.postal.unwrap().code, Some("100-0001".to_string()));
    let traits = reply.traits.unwrap();
    assert_eq!(traits.is_anonymous_proxy, Some(true));
    assert_eq!(traits.is_satellite_provider, None);
    assert!(reply.city.is_none());
}

#[test]
fn metadata_reports_the_active_snapshot() {
    let svc = service();
    let m = svc.metadata();
    assert_eq!(m.binary_format_major_version, 2);
    assert_eq!(m.binary_format_minor_version, 0);
    assert_eq!(m.build_epoch, 1_600_000_000);
    assert_eq!(m.database_type, "Test-City");
    assert_eq!(m.description, pairs(&[("en", "Test database")]));
    assert_eq!(m.ip_version, 4);
    assert_eq!(m.languages, codes(&["en", "ja"]));
    assert_eq!(m.record_size, 24);
    assert!(m.node_count > 0);
}

#[test]
fn failed_reload_keeps_serving_the_old_snapshot() {
    let svc = service();
    let err = svc.reload(b"not a database".to_vec()).err().unwrap();
    assert_eq!(err.code, StatusCode::Internal);
    assert_eq!(city_names(&svc, "1.2.3.4", &["en"]), Some(pairs(&[("en", "Testville")])));
    assert_eq!(svc.metadata().database_type, "Test-City");
    assert_eq!(svc.metadata().build_epoch, 1_600_000_000);
}

#[test]
fn reload_swaps_in_the_new_snapshot_for_every_clone() {
    let svc = service();
    let other = svc.clone();
    let reply = svc.reload(second_fixture()).ok().unwrap();
    assert_eq!(reply.database_type, "Test-City-2");
    assert_eq!(reply.build_epoch, 1_700_000_000);
    assert_eq!(other.metadata().database_type, "Test-City-2");
    assert_eq!(city_names(&other, "1.2.3.4", &[]), Some(pairs(&[("en", "Newtown")])));
    assert_eq!(other.lookup("5.6.7.8", &Vec::new()).err().unwrap().code, StatusCode::NotFound);
}

#[test]
fn open_rejects_bytes_without_metadata() {
    assert!(Snapshot::open(Vec::new()).is_err());
    assert!(Snapshot::open(b"\x00\x01\x02".to_vec()).is_err());
}

#[test]
fn lookups_between_reloads_see_one_whole_snapshot() {
    let svc = service();
    let reader = svc.clone();
    let first = pairs(&[("en", "Testville"), ("ja", "テスト市")]);
    let second = pairs(&[("en", "Newtown")]);
    for i in 0..20 {
        let (image, names, epoch) = if i % 2 == 0 {
            (second_fixture(), &second, 1_700_000_000)
        } else {
            (fixture(), &first, 1_600_000_000)
        };
        assert!(svc.reload(image).is_ok());
        assert_eq!(city_names(&reader, "1.2.3.4", &[]).as_ref(), Some(names));
        assert_eq!(reader.metadata().build_epoch, epoch);
    }
}

fn marker_end(image: &[u8]) -> usize {
    let marker = b"\xab\xcd\xefMaxMind.com";
    (0..=image.len() - marker.len()).rev().find(|&i| &image[i..i + marker.len()] == marker).unwrap()
        + marker.len()
}

#[test]
fn fixture_images_pass_the_structural_check() {
    assert!(image_is_sound(&fixture()));
    assert!(image_is_sound(&second_fixture()));
}

#[test]
fn image_ending_at_the_marker_is_refused() {
    let mut image = fixture();
    let end = marker_end(&image);
    image.truncate(end);
    assert!(!image_is_sound(&image));
    let svc = service();
    let err = svc.reload(image).err().unwrap();
    assert_eq!(err.code, StatusCode::Internal);
    assert_eq!(err.message, "the database image is malformed");
    assert_eq!(svc.metadata().database_type, "Test-City");
}

#[test]
fn tree_record_inside_the_separator_is_refused() {
    let mut image = fixture();
    // The first record of node 0 becomes one past the node count, which points
    // into the separator rather than at data.
    let count = {
        let m = marker_end(&image);
        let meta = &image[m..];
        let key = b"node_count";
        let at = meta.windows(key.len()).position(|w| w == key).unwrap() + key.len();
        let (ctrl, rest) = (meta[at], &meta[at + 1..]);
        let size = (ctrl & 0x1f) as usize;
        rest[..size].iter().fold(0usize, |acc, &b| (acc << 8) | b as usize)
    };
    let v = count + 1;
    image[0] = (v >> 16) as u8;
    image[1] = (v >> 8) as u8;
    image[2] = v as u8;
    assert!(!image_is_sound(&image));
    assert!(Snapshot::open(image).is_err());
}

#[test]
fn pointer_to_itself_is_refused() {
    // A record that is a pointer to its own offset would never finish decoding.
    let image = image(&[([1, 2, 3, 4], vec![0x20, 0x00])], "Loop", 1);
    assert!(!image_is_sound(&image));
    assert!(Snapshot::open(image).is_err());
}

#[test]
fn health_check_always_reports_serving() {
    assert_eq!(HealthService.check(""), ServingStatus::Serving);
    assert_eq!(HealthService.check("geoip2.GeoIp"), ServingStatus::Serving);
}
