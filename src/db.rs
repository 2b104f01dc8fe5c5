//! The database reader and the lock that holds the active snapshot: the
//! calls into maxminddb and spin that the service relies on.
use vstd::prelude::*;

use crate::image::sound_image;
use crate::metadata::DbMetadata;
use crate::names::{names_view, unique_codes};
use crate::record::{Entity, Location, Postal, Subdivision, Traits};
use crate::status::{db_error_spec, message_of, DbError};
use vstd::string::StringExecFns;
use maxminddb::geoip2;
use maxminddb::{MaxMindDBError, Reader};
use std::sync::Arc;

verus! {

/// maxminddb's error enum; its variants and their messages are public, so
/// Verus reads them and the mapping onto the library's errors is verified.
#[verifier::external_type_specification]
pub struct ExMaxMindDBError(MaxMindDBError);

/// maxminddb's decoded city record, carried opaquely from the lookup to the
/// copies of its parts below.
#[verifier::external_type_specification]
#[verifier::external_body]
pub struct ExCity<'a>(geoip2::City<'a>);

/// spin's reader-writer lock, holding the active snapshot.
#[verifier::external_type_specification]
#[verifier::external_body]
#[verifier::reject_recursive_types(T)]
#[verifier::reject_recursive_types(R)]
pub struct ExRwLock<T: ?Sized, R>(spin::rwlock::RwLock<T, R>);

/// spin's default relax strategy, a type parameter of its lock.
#[verifier::external_type_specification]
#[verifier::external_body]
pub struct ExSpin(spin::relax::Spin);

/// An IPv4 or IPv6 address, as its octets.
#[derive(Clone, Copy, Debug)]
pub enum IpAddress {
    V4([u8; 4]),
    V6([u8; 16]),
}

/// The octets of an address, in network order.
pub open spec fn octets(a: IpAddress) -> Seq<u8> {
    match a {
        IpAddress::V4(o) => o@,
        IpAddress::V6(o) => o@,
    }
}

/// maxminddb's reader over an image held in memory. It sits in a hidden
/// field since Verus cannot declare maxminddb's `Reader` with its bound.
#[verifier::external_body]
struct Db {
    reader: Reader<Vec<u8>>,
}

/// A loaded database, immutable once opened; its view is the image it was
/// opened from.
pub struct Snapshot {
    db: Db,
    image: Ghost<Seq<u8>>,
}

impl View for Snapshot {
    type V = Seq<u8>;

    closed spec fn view(&self) -> Seq<u8> {
        self.image@
    }
}

impl Snapshot {
    /// Only a sound image that the reader accepted becomes a snapshot.
    #[verifier::type_invariant]
    spec fn inv(&self) -> bool {
        sound_image(self.image@) && is_database_image(self.image@)
    }
}

/// Every snapshot comes from a sound image that the reader accepted.
pub fn snapshot_is_sound(s: &Snapshot)
    ensures
        sound_image(s@),
        is_database_image(s@),
{
    proof {
        use_type_invariant(s);
    }
}

/// A record found by a lookup, with the image and address it was found for.
pub struct Found<'a> {
    city: geoip2::City<'a>,
    image: Ghost<Seq<u8>>,
    address: Ghost<Seq<u8>>,
}

impl<'a> Found<'a> {
    /// The image the record was found in.
    pub closed spec fn source(&self) -> Seq<u8> {
        self.image@
    }

    /// The octets of the address it was found for.
    pub closed spec fn key(&self) -> Seq<u8> {
        self.address@
    }
}

/// The lock that holds the active snapshot.
pub type SnapshotCell = spin::RwLock<Arc<Snapshot>>;

/// Whether the text is an IPv4 or IPv6 address.
pub uninterp spec fn is_ip_address(text: Seq<char>) -> bool;

/// The octets of the address that the text writes.
pub uninterp spec fn address_of(text: Seq<char>) -> Seq<u8>;

/// Whether the reader accepts the bytes as a database.
pub uninterp spec fn is_database_image(image: Seq<u8>) -> bool;

/// The message of the reader's failure to open the bytes.
pub uninterp spec fn open_error_message(image: Seq<u8>) -> Seq<char>;

/// The metadata section of a database image.
pub uninterp spec fn image_metadata(image: Seq<u8>) -> DbMetadata;

/// The failure of looking an address up in an image; `None` when a record
/// is found.
pub uninterp spec fn lookup_failure(image: Seq<u8>, address: Seq<u8>) -> Option<DbError>;

/// The parts of the record found for an address in an image.
pub uninterp spec fn city_at(image: Seq<u8>, address: Seq<u8>) -> Option<Entity>;

pub uninterp spec fn continent_at(image: Seq<u8>, address: Seq<u8>) -> Option<Entity>;

pub uninterp spec fn country_at(image: Seq<u8>, address: Seq<u8>) -> Option<Entity>;

pub uninterp spec fn registered_country_at(image: Seq<u8>, address: Seq<u8>) -> Option<Entity>;

pub uninterp spec fn represented_country_at(image: Seq<u8>, address: Seq<u8>) -> Option<Entity>;

pub uninterp spec fn location_at(image: Seq<u8>, address: Seq<u8>) -> Option<Location>;

pub uninterp spec fn postal_at(image: Seq<u8>, address: Seq<u8>) -> Option<Postal>;

pub uninterp spec fn subdivisions_at(image: Seq<u8>, address: Seq<u8>) -> Option<Vec<Subdivision>>;

pub uninterp spec fn traits_at(image: Seq<u8>, address: Seq<u8>) -> Option<Traits>;

/// The entity's names, where present, have distinct locale codes.
pub open spec fn codes_distinct(e: Option<Entity>) -> bool {
    e is Some && e->0.names is Some ==> unique_codes(names_view(e->0.names->0@))
}

/// Relies on `str::parse::<IpAddr>`: succeeds exactly on address text, and
/// gives the address's octets.
#[verifier::external_body]
pub(crate) fn parse_address(text: &str) -> (r: Option<IpAddress>)
    ensures
        r is Some <==> is_ip_address(text@),
        r is Some ==> octets(r->0) == address_of(text@),
{
    text.parse::<core::net::IpAddr>().ok().map(|a| match a {
        core::net::IpAddr::V4(v) => IpAddress::V4(v.octets()),
        core::net::IpAddr::V6(v) => IpAddress::V6(v.octets()),
    })
}

/// Relies on maxminddb's `Reader::from_source`, which on a sound image reads
/// within bounds; whether it succeeds and the message of its failure depend
/// on the bytes alone, and it never reports a missing address.
#[verifier::external_body]
fn open_image(image: Vec<u8>) -> (r: Result<Db, MaxMindDBError>)
    requires
        sound_image(image@),
    ensures
        r is Ok <==> is_database_image(image@),
        r is Err ==> !(r->Err_0 is AddressNotFoundError) && message_of(db_error_spec(r->Err_0))
            == open_error_message(image@),
{
    Reader::from_source(image).map(|reader| Db { reader })
}

impl Snapshot {
    /// Checks and parses a whole database image. Bytes that fail the
    /// structural checks, or that the reader refuses, give an `Internal`
    /// kind of error; the reader's refusal keeps its message.
    pub fn open(image: Vec<u8>) -> (r: Result<Snapshot, DbError>)
        ensures
            r is Ok <==> sound_image(image@) && is_database_image(image@),
            r is Ok ==> r->Ok_0@ == image@,
            r is Err ==> !(r->Err_0 is AddressNotFound) && message_of(r->Err_0) == open_failure_message(image@),
    {
        if !crate::image::image_is_sound(&image) {
            let message = String::from_str("the database image is malformed");
            proof {
                reveal_strlit("the database image is malformed");
            }
            return Err(DbError::InvalidDatabase(message));
        }
        let ghost seen = image@;
        match open_image(image) {
            Ok(db) => Ok(Snapshot { db, image: Ghost(seen) }),
            Err(e) => Err(DbError::from_reader(e)),
        }
    }
}

/// The message with which opening an image fails.
pub open spec fn open_failure_message(image: Seq<u8>) -> Seq<char> {
    if sound_image(image) {
        open_error_message(image)
    } else {
        "the database image is malformed"@
    }
}

/// Relies on maxminddb's `Reader::lookup`, decoding a city record; on a
/// sound image it reads within bounds, and its outcome depends on the image
/// and the address alone.
#[verifier::external_body]
pub(crate) fn lookup_city<'a>(s: &'a Snapshot, address: &IpAddress) -> (r: Result<Found<'a>, MaxMindDBError>)
    requires
        sound_image(s@),
    ensures
        r is Err ==> lookup_failure(s@, octets(*address)) == Some(db_error_spec(r->Err_0)),
        r is Ok ==> lookup_failure(s@, octets(*address)) is None && r->Ok_0.source() == s@
            && r->Ok_0.key() == octets(*address),
{
    let ip = match address {
        IpAddress::V4(o) => core::net::IpAddr::from(*o),
        IpAddress::V6(o) => core::net::IpAddr::from(*o),
    };
    s.db.reader.lookup::<geoip2::City>(ip).map(|city| Found { city, image: Ghost(s@), address: Ghost(octets(*address)) })
}

/// Relies on maxminddb's public `Reader::metadata` field: copies it, the
/// description map in key order; it depends on the image alone.
#[verifier::external_body]
pub(crate) fn metadata_of(s: &Snapshot) -> (r: DbMetadata)
    ensures
        r == image_metadata(s@),
{
    let m = &s.db.reader.metadata;
    DbMetadata {
        binary_format_major_version: m.binary_format_major_version,
        binary_format_minor_version: m.binary_format_minor_version,
        build_epoch: m.build_epoch,
        database_type: m.database_type.clone(),
        description: m.description.iter().map(|(k, v)| (k.clone(), v.clone())).collect(),
        ip_version: m.ip_version,
        languages: m.languages.clone(),
        node_count: m.node_count,
        record_size: m.record_size,
    }
}

/// Relies on maxminddb's `geoip2::City::city` field: copies its identifier
/// and names; the names come from a map, so their codes are distinct.
#[verifier::external_body]
pub(crate) fn city_part(f: &Found) -> (r: Option<Entity>)
    ensures
        r == city_at(f.source(), f.key()),
        codes_distinct(r),
{
    f.city.city.as_ref().map(|x| Entity {
        geoname_id: x.geoname_id,
        code: None,
        is_in_european_union: None,
        names: x.names.as_ref().map(|n| n.iter().map(|(k, v)| (k.to_string(), v.to_string())).collect()),
    })
}

/// Relies on maxminddb's `geoip2::City::continent` field: copies its code,
/// identifier and names.
#[verifier::external_body]
pub(crate) fn continent_part(f: &Found) -> (r: Option<Entity>)
    ensures
        r == continent_at(f.source(), f.key()),
        codes_distinct(r),
{
    f.city.continent.as_ref().map(|x| Entity {
        geoname_id: x.geoname_id,
        code: x.code.map(|s| s.to_string()),
        is_in_european_union: None,
        names: x.names.as_ref().map(|n| n.iter().map(|(k, v)| (k.to_string(), v.to_string())).collect()),
    })
}

/// Relies on maxminddb's `geoip2::City::country` field: copies its
/// identifier, EU flag, ISO code and names.
#[verifier::external_body]
pub(crate) fn country_part(f: &Found) -> (r: Option<Entity>)
    ensures
        r == country_at(f.source(), f.key()),
        codes_distinct(r),
{
    f.city.country.as_ref().map(|x| Entity {
        geoname_id: x.geoname_id,
        code: x.iso_code.map(|s| s.to_string()),
        is_in_european_union: x.is_in_european_union,
        names: x.names.as_ref().map(|n| n.iter().map(|(k, v)| (k.to_string(), v.to_string())).collect()),
    })
}

/// Relies on maxminddb's `geoip2::City::registered_country` field: copied
/// as the country is.
#[verifier::external_body]
pub(crate) fn registered_country_part(f: &Found) -> (r: Option<Entity>)
    ensures
        r == registered_country_at(f.source(), f.key()),
        codes_distinct(r),
{
    f.city.registered_country.as_ref().map(|x| Entity {
        geoname_id: x.geoname_id,
        code: x.iso_code.map(|s| s.to_string()),
        is_in_european_union: x.is_in_european_union,
        names: x.names.as_ref().map(|n| n.iter().map(|(k, v)| (k.to_string(), v.to_string())).collect()),
    })
}

/// Relies on maxminddb's `geoip2::City::represented_country` field: copies
/// its identifier, EU flag, ISO code and names.
#[verifier::external_body]
pub(crate) fn represented_country_part(f: &Found) -> (r: Option<Entity>)
    ensures
        r == represented_country_at(f.source(), f.key()),
        codes_distinct(r),
{
    f.city.represented_country.as_ref().map(|x| Entity {
        geoname_id: x.geoname_id,
        code: x.iso_code.map(|s| s.to_string()),
        is_in_european_union: x.is_in_european_union,
        names: x.names.as_ref().map(|n| n.iter().map(|(k, v)| (k.to_string(), v.to_string())).collect()),
    })
}

/// Relies on maxminddb's `geoip2::City::location` field: copies it, each
/// coordinate as the bits of its `f64` (`to_bits`).
#[verifier::external_body]
pub(crate) fn location_part(f: &Found) -> (r: Option<Location>)
    ensures
        r == location_at(f.source(), f.key()),
{
    f.city.location.as_ref().map(|x| Location {
        latitude_bits: x.latitude.map(|v| v.to_bits()),
        longitude_bits: x.longitude.map(|v| v.to_bits()),
        metro_code: x.metro_code.map(u32::from),
        time_zone: x.time_zone.map(|s| s.to_string()),
    })
}

/// Relies on maxminddb's `geoip2::City::postal` field: copies its code.
#[verifier::external_body]
pub(crate) fn postal_part(f: &Found) -> (r: Option<Postal>)
    ensures
        r == postal_at(f.source(), f.key()),
{
    f.city.postal.as_ref().map(|x| Postal { code: x.code.map(|s| s.to_string()) })
}

/// Relies on maxminddb's `geoip2::City::subdivisions` field: copies each
/// subdivision's identifier and ISO code, in their order.
#[verifier::external_body]
pub(crate) fn subdivisions_part(f: &Found) -> (r: Option<Vec<Subdivision>>)
    ensures
        r == subdivisions_at(f.source(), f.key()),
{
    f.city.subdivisions.as_ref().map(|xs| {
        xs.iter().map(|x| Subdivision { geoname_id: x.geoname_id, iso_code: x.iso_code.map(|s| s.to_string()) }).collect()
    })
}

/// Relies on maxminddb's `geoip2::City::traits` field: copies its two flags.
#[verifier::external_body]
pub(crate) fn traits_part(f: &Found) -> (r: Option<Traits>)
    ensures
        r == traits_at(f.source(), f.key()),
{
    f.city.traits.as_ref().map(|x| Traits {
        is_anonymous_proxy: x.is_anonymous_proxy,
        is_satellite_provider: x.is_satellite_provider,
    })
}

/// Relies on spin's `RwLock::new`: a lock holding the first snapshot.
#[verifier::external_body]
pub(crate) fn new_cell(first: Snapshot) -> Arc<SnapshotCell> {
    Arc::new(spin::RwLock::new(Arc::new(first)))
}

/// Relies on spin's `RwLock::read`: a shared reference to the snapshot that is
/// active now, taken under the read lock, which is released on return.
#[verifier::external_body]
pub(crate) fn read_current(cell: &SnapshotCell) -> Arc<Snapshot> {
    cell.read().clone()
}

/// Relies on spin's `RwLock::write`: makes `next` the active snapshot in one
/// assignment under the write lock.
#[verifier::external_body]
pub(crate) fn write_current(cell: &SnapshotCell, next: Arc<Snapshot>) {
    *cell.write() = next;
}

} // verus!
