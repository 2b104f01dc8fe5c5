//! The lookup, metadata and reload handlers over the shared snapshot.
use vstd::prelude::*;

use crate::db::{
    address_of, city_at, city_part, continent_at, continent_part, country_at, country_part,
    image_metadata, is_database_image, is_ip_address, snapshot_is_sound, location_at,
    location_part, lookup_city, lookup_failure, metadata_of, new_cell, octets,
    open_failure_message, parse_address, postal_at, postal_part, read_current,
    registered_country_at, registered_country_part, represented_country_at,
    represented_country_part, subdivisions_at, subdivisions_part, traits_at, traits_part,
    write_current, Found, IpAddress, Snapshot, SnapshotCell,
};
use crate::image::sound_image;
use crate::metadata::{reports, MetadataReply};
use crate::names::locale_set;
use crate::record::{reply_of, CityReply, GeoRecord};
use crate::status::{
    code_of, convert_error, invalid_address, invalid_address_message, message_of, DbError, Status,
    StatusCode,
};
use std::sync::Arc;

verus! {

/// `r` is the status that `err` maps to.
pub open spec fn status_of(err: DbError, r: Status) -> bool {
    r.code == code_of(err) && r.message@ == message_of(err)
}

/// `r` answers a lookup whose database outcome was `found`, for the locale
/// set `wanted`: the filtered reply of the record, or the mapped failure.
pub open spec fn answers(
    found: Result<GeoRecord, DbError>,
    r: Result<CityReply, Status>,
    wanted: Set<Seq<char>>,
) -> bool {
    match found {
        Ok(record) => r is Ok && reply_of(record, r->Ok_0, wanted),
        Err(e) => r is Err && status_of(e, r->Err_0),
    }
}

/// The reply to a lookup, given what the database returned for the address.
pub fn lookup_outcome(found: Result<GeoRecord, DbError>, locales: &Vec<String>) -> (r: Result<
    CityReply,
    Status,
>)
    ensures
        answers(found, r, locale_set(locales@)),
{
    match found {
        Ok(record) => Ok(CityReply::from_record(record, locales)),
        Err(e) => Err(convert_error(e)),
    }
}

/// What a lookup of `address` in `image` yields: the record found, part by
/// part, or the reader's failure.
pub open spec fn lookup_answer(image: Seq<u8>, address: Seq<u8>) -> Result<GeoRecord, DbError> {
    match lookup_failure(image, address) {
        Some(e) => Err(e),
        None => Ok(
            GeoRecord {
                city: city_at(image, address),
                continent: continent_at(image, address),
                country: country_at(image, address),
                registered_country: registered_country_at(image, address),
                represented_country: represented_country_at(image, address),
                location: location_at(image, address),
                postal: postal_at(image, address),
                subdivisions: subdivisions_at(image, address),
                traits: traits_at(image, address),
            },
        ),
    }
}

/// The library's record for a found city record, part by part.
fn record_of(f: &Found) -> (r: GeoRecord)
    ensures
        r == (GeoRecord {
            city: city_at(f.source(), f.key()),
            continent: continent_at(f.source(), f.key()),
            country: country_at(f.source(), f.key()),
            registered_country: registered_country_at(f.source(), f.key()),
            represented_country: represented_country_at(f.source(), f.key()),
            location: location_at(f.source(), f.key()),
            postal: postal_at(f.source(), f.key()),
            subdivisions: subdivisions_at(f.source(), f.key()),
            traits: traits_at(f.source(), f.key()),
        }),
{
    GeoRecord {
        city: city_part(f),
        continent: continent_part(f),
        country: country_part(f),
        registered_country: registered_country_part(f),
        represented_country: represented_country_part(f),
        location: location_part(f),
        postal: postal_part(f),
        subdivisions: subdivisions_part(f),
        traits: traits_part(f),
    }
}

/// Looks `address` up in one snapshot and answers from that snapshot alone.
pub fn lookup_in(snapshot: &Snapshot, address: &IpAddress, locales: &Vec<String>) -> (r: Result<
    CityReply,
    Status,
>)
    ensures
        answers(lookup_answer(snapshot@, octets(*address)), r, locale_set(locales@)),
{
    snapshot_is_sound(snapshot);
    let found = match lookup_city(snapshot, address) {
        Ok(f) => Ok(record_of(&f)),
        Err(e) => Err(DbError::from_reader(e)),
    };
    lookup_outcome(found, locales)
}

/// A lookup of an address that the database does not hold fails with
/// `NotFound`; every other failure of the database is `Internal`. Neither is
/// ever `InvalidArgument`, which only text that is not an address earns.
pub proof fn lemma_lookup_failure_kinds(
    image: Seq<u8>,
    address: Seq<u8>,
    r: Result<CityReply, Status>,
    wanted: Set<Seq<char>>,
)
    requires
        answers(lookup_answer(image, address), r, wanted),
        lookup_failure(image, address) is Some,
    ensures
        r is Err,
        r->Err_0.code == StatusCode::NotFound <==> lookup_failure(image, address)->0 is AddressNotFound,
        r->Err_0.code != StatusCode::InvalidArgument,
{
}

/// `r` is how a reload of `image` fails: as `Internal`, with the reason.
pub open spec fn reload_failure(image: Seq<u8>, r: Status) -> bool {
    r.code == StatusCode::Internal && r.message@ == open_failure_message(image)
}

/// The service: one shared cell holding the active snapshot. Clones share it.
pub struct CityService {
    cell: Arc<SnapshotCell>,
}

impl Clone for CityService {
    fn clone(&self) -> (r: CityService) {
        CityService { cell: self.cell.clone() }
    }
}

impl CityService {
    /// A service whose active snapshot is `first`.
    pub fn new(first: Snapshot) -> CityService {
        CityService { cell: new_cell(first) }
    }

    /// Answers a lookup of `ip` with names in `locales` (all of them when
    /// `locales` is empty). Text that is not an IP address fails with
    /// `InvalidArgument`; otherwise the answer is that of looking the address
    /// up in a single accepted database image (the snapshot read from the
    /// cell): the filtered record, or the reader's failure mapped to
    /// `NotFound` or `Internal`.
    pub fn lookup(&self, ip: &str, locales: &Vec<String>) -> (r: Result<CityReply, Status>)
        ensures
            !is_ip_address(ip@) ==> r is Err && r->Err_0.code == StatusCode::InvalidArgument
                && r->Err_0.message@ == invalid_address_message(ip@),
            is_ip_address(ip@) ==> exists|image: Seq<u8>|
                sound_image(image) && is_database_image(image) && answers(
                    lookup_answer(image, address_of(ip@)),
                    r,
                    locale_set(locales@),
                ),
    {
        match parse_address(ip) {
            None => Err(invalid_address(ip)),
            Some(address) => {
                let snapshot = read_current(&self.cell);
                let s: &Snapshot = &*snapshot;
                snapshot_is_sound(s);
                let r = lookup_in(s, &address, locales);
                assert(answers(lookup_answer(s@, address_of(ip@)), r, locale_set(locales@)));
                r
            },
        }
    }

    /// Reports the metadata of the active snapshot.
    pub fn metadata(&self) -> (r: MetadataReply)
        ensures
            exists|image: Seq<u8>|
                sound_image(image) && is_database_image(image) && reports(image_metadata(image), r),
    {
        let snapshot = read_current(&self.cell);
        let s: &Snapshot = &*snapshot;
        snapshot_is_sound(s);
        let r = MetadataReply::from_metadata(metadata_of(s));
        assert(reports(image_metadata(s@), r));
        r
    }

    /// Checks and parses `image` as a new snapshot and, only once that has
    /// succeeded, makes it the active one and reports its metadata. An image
    /// that fails leaves the active snapshot in place and fails as `Internal`
    /// with the reason.
    pub fn reload(&self, image: Vec<u8>) -> (r: Result<MetadataReply, Status>)
        ensures
            r is Ok <==> sound_image(image@) && is_database_image(image@),
            r is Ok ==> reports(image_metadata(image@), r->Ok_0),
            r is Err ==> reload_failure(image@, r->Err_0),
    {
        let ghost bytes = image@;
        match Snapshot::open(image) {
            Ok(next) => {
                let reply = MetadataReply::from_metadata(metadata_of(&next));
                write_current(&self.cell, Arc::new(next));
                Ok(reply)
            },
            Err(err) => {
                let status = convert_error(err);
                assert(reload_failure(bytes, status));
                Err(status)
            },
        }
    }
}

} // verus!
