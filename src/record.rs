//! The record a database lookup yields, the reply built from it, and the
//! assembly of one into the other under a requested locale set.
use vstd::prelude::*;

use crate::names::{filter_locales, filter_names, locale_set, names_view};

verus! {

/// A named geographic or administrative entity: a city, continent or country.
pub struct Entity {
    pub geoname_id: Option<u32>,
    /// The ISO code of a country, or the two-letter code of a continent.
    pub code: Option<String>,
    pub is_in_european_union: Option<bool>,
    /// Display names keyed by locale code.
    pub names: Option<Vec<(String, String)>>,
}

/// Coordinates and related facts of a location. Latitude and longitude are
/// held as the bit patterns of their IEEE 754 double values.
pub struct Location {
    pub latitude_bits: Option<u64>,
    pub longitude_bits: Option<u64>,
    pub metro_code: Option<u32>,
    pub time_zone: Option<String>,
}

pub struct Postal {
    pub code: Option<String>,
}

pub struct Subdivision {
    pub geoname_id: Option<u32>,
    pub iso_code: Option<String>,
}

pub struct Traits {
    pub is_anonymous_proxy: Option<bool>,
    pub is_satellite_provider: Option<bool>,
}

/// The decoded result of one lookup; every part is independently optional.
pub struct GeoRecord {
    pub city: Option<Entity>,
    pub continent: Option<Entity>,
    pub country: Option<Entity>,
    pub registered_country: Option<Entity>,
    pub represented_country: Option<Entity>,
    pub location: Option<Location>,
    pub postal: Option<Postal>,
    pub subdivisions: Option<Vec<Subdivision>>,
    pub traits: Option<Traits>,
}

/// The answer to a lookup: the record with its entities' names filtered.
pub struct CityReply {
    pub city: Option<Entity>,
    pub continent: Option<Entity>,
    pub country: Option<Entity>,
    pub registered_country: Option<Entity>,
    pub represented_country: Option<Entity>,
    pub location: Option<Location>,
    pub postal: Option<Postal>,
    pub subdivisions: Option<Vec<Subdivision>>,
    pub traits: Option<Traits>,
}

/// `out` is `src` with its names filtered to `wanted`; every other field is kept.
pub open spec fn entity_filtered(src: Entity, out: Entity, wanted: Set<Seq<char>>) -> bool {
    &&& out.geoname_id == src.geoname_id
    &&& out.code == src.code
    &&& out.is_in_european_union == src.is_in_european_union
    &&& out.names is Some <==> src.names is Some
    &&& src.names is Some ==> names_view(out.names->0@) == filter_names(
        names_view(src.names->0@),
        wanted,
    )
}

/// An absent entity stays absent; a present one is filtered.
pub open spec fn part_filtered(src: Option<Entity>, out: Option<Entity>, wanted: Set<Seq<char>>) -> bool {
    match src {
        None => out is None,
        Some(e) => out is Some && entity_filtered(e, out->0, wanted),
    }
}

/// `reply` answers `record` for the locale set `wanted`.
pub open spec fn reply_of(record: GeoRecord, reply: CityReply, wanted: Set<Seq<char>>) -> bool {
    &&& part_filtered(record.city, reply.city, wanted)
    &&& part_filtered(record.continent, reply.continent, wanted)
    &&& part_filtered(record.country, reply.country, wanted)
    &&& part_filtered(record.registered_country, reply.registered_country, wanted)
    &&& part_filtered(record.represented_country, reply.represented_country, wanted)
    &&& reply.location == record.location
    &&& reply.postal == record.postal
    &&& reply.subdivisions == record.subdivisions
    &&& reply.traits == record.traits
}

/// Filters the names of one entity and keeps its other fields.
pub fn filter_entity(e: Entity, locales: &Vec<String>) -> (r: Entity)
    ensures
        entity_filtered(e, r, locale_set(locales@)),
{
    let names = match &e.names {
        Some(n) => Some(filter_locales(n, locales)),
        None => None,
    };
    Entity {
        geoname_id: e.geoname_id,
        code: e.code,
        is_in_european_union: e.is_in_european_union,
        names,
    }
}

fn filter_part(part: Option<Entity>, locales: &Vec<String>) -> (r: Option<Entity>)
    ensures
        part_filtered(part, r, locale_set(locales@)),
{
    match part {
        Some(e) => Some(filter_entity(e, locales)),
        None => None,
    }
}

impl CityReply {
    /// Builds the reply for `record`: each entity's names are filtered to
    /// `locales` (all of them when `locales` is empty), absent parts stay
    /// absent, and location, postal code, subdivisions and traits pass through.
    pub fn from_record(record: GeoRecord, locales: &Vec<String>) -> (r: CityReply)
        ensures
            reply_of(record, r, locale_set(locales@)),
    {
        CityReply {
            city: filter_part(record.city, locales),
            continent: filter_part(record.continent, locales),
            country: filter_part(record.country, locales),
            registered_country: filter_part(record.registered_country, locales),
            represented_country: filter_part(record.represented_country, locales),
            location: record.location,
            postal: record.postal,
            subdivisions: record.subdivisions,
            traits: record.traits,
        }
    }
}

} // verus!
