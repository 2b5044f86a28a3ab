//! Generic props: objects whose properties are placed into replication zones
//! by a definition. A definition names, for each channel (zone), the
//! properties it replicates; an object's data is kept per zone, and an update
//! writes each indexed property into its zone and reports the zones it touched.

use vstd::prelude::*;
use std::collections::{HashMap, HashSet};
use crate::ids::{uuid_or_generate, is_v4_uuid_text};
use crate::property_map::PropertyMap;

verus! {

broadcast use vstd::std_specs::hash::group_hash_axioms;

/// A replication channel of a definition. Distance (meters) and frequency
/// (Hz) are kept as the bits of their IEEE-754 double values.
#[derive(Debug, Clone, Copy, PartialEq, Eq, Structural)]
pub struct Channel {
    /// The replication zone (channel number).
    pub zone: u8,
    /// Bits of the replication distance.
    pub distance_bits: u64,
    /// Bits of the update frequency.
    pub frequency_bits: u64,
}

/// A channel as a definition document states it: its zone, distance and
/// frequency, and the properties it replicates (`None` for an entry that is
/// not a property name).
#[derive(Debug, Clone)]
pub struct ChannelDefinition {
    /// The replication zone (channel number).
    pub zone: u8,
    /// Bits of the replication distance.
    pub distance_bits: u64,
    /// Bits of the update frequency.
    pub frequency_bits: u64,
    /// The properties the channel replicates.
    pub properties: Vec<Option<String>>,
}

/// The index after assigning each named property of `props` to `zone`, in order.
pub open spec fn assign_properties(index: Map<Seq<char>, u8>, props: Seq<Option<String>>, zone: u8) -> Map<Seq<char>, u8>
    decreases props.len(),
{
    if props.len() == 0 {
        index
    } else {
        let before = assign_properties(index, props.drop_last(), zone);
        match props.last() {
            Some(p) => before.insert(p@, zone),
            None => before,
        }
    }
}

/// The property index that a list of channels describes: each property is
/// replicated in the zone of the last channel that names it.
pub open spec fn channels_index(defs: Seq<ChannelDefinition>) -> Map<Seq<char>, u8>
    decreases defs.len(),
{
    if defs.len() == 0 {
        Map::empty()
    } else {
        assign_properties(channels_index(defs.drop_last()), defs.last().properties@, defs.last().zone)
    }
}

/// The channel that a channel definition describes.
pub open spec fn channel_of(d: ChannelDefinition) -> Channel {
    Channel { zone: d.zone, distance_bits: d.distance_bits, frequency_bits: d.frequency_bits }
}

/// The definition of a kind of generic prop: its name, the zone of each
/// property, and its replication channels.
#[derive(Debug, Clone)]
pub struct ObjectDefinition {
    /// The kind's name.
    pub name: String,
    /// The zone in which each property is replicated.
    pub index: PropertyMap<u8>,
    /// The replication channels, in the order of the definition.
    pub channels: Vec<Channel>,
}

/// The data a request carries for a prop, as JSON: `null`, an object with
/// its members in order, or any other value.
#[derive(Debug, Clone)]
pub enum JsonInput<V> {
    /// JSON `null`.
    Null,
    /// A JSON object's members.
    Object(Vec<(String, V)>),
    /// Any other JSON value.
    Other,
}

/// Per-zone data after writing one member: an indexed property is written
/// into its zone (the zone is created where absent); others are skipped.
pub open spec fn apply_member<V>(
    data: Map<u8, Map<Seq<char>, V>>,
    index: Map<Seq<char>, u8>,
    member: (String, V),
) -> Map<u8, Map<Seq<char>, V>> {
    if index.contains_key(member.0@) {
        let zone = index[member.0@];
        let zone_data = if data.contains_key(zone) { data[zone] } else { Map::empty() };
        data.insert(zone, zone_data.insert(member.0@, member.1))
    } else {
        data
    }
}

/// Per-zone data after writing the members in order.
pub open spec fn apply_members<V>(
    data: Map<u8, Map<Seq<char>, V>>,
    index: Map<Seq<char>, u8>,
    members: Seq<(String, V)>,
) -> Map<u8, Map<Seq<char>, V>>
    decreases members.len(),
{
    if members.len() == 0 {
        data
    } else {
        apply_member(apply_members(data, index, members.drop_last()), index, members.last())
    }
}

/// The zones in which the members' indexed properties lie.
pub open spec fn touched_zones<V>(index: Map<Seq<char>, u8>, members: Seq<(String, V)>) -> Set<u8>
    decreases members.len(),
{
    if members.len() == 0 {
        Set::empty()
    } else {
        let before = touched_zones(index, members.drop_last());
        if index.contains_key(members.last().0@) {
            before.insert(index[members.last().0@])
        } else {
            before
        }
    }
}

/// A zone holding no property.
pub open spec fn no_property_data<V>() -> Map<Seq<char>, V> {
    Map::empty()
}

/// Zone data holding no zone.
pub open spec fn no_zone_data<V>() -> Map<u8, Map<Seq<char>, V>> {
    Map::empty()
}

/// The per-zone view of zone data.
pub open spec fn zones_view<V>(data: Map<u8, PropertyMap<V>>) -> Map<u8, Map<Seq<char>, V>> {
    Map::new(|z: u8| data.contains_key(z), |z: u8| data[z].view())
}

/// The zone data that ordering a request's data yields: nothing for `null`,
/// the members placed into their zones for an object, and an error otherwise.
pub open spec fn ordered_data<V>(index: Map<Seq<char>, u8>, data: JsonInput<V>) -> Option<Map<u8, Map<Seq<char>, V>>> {
    match data {
        JsonInput::Null => Some(Map::empty()),
        JsonInput::Object(members) => Some(apply_members(Map::empty(), index, members@)),
        JsonInput::Other => None,
    }
}

fn write_member<V>(
    data: &mut HashMap<u8, PropertyMap<V>>,
    index: &PropertyMap<u8>,
    name: String,
    value: V,
    touched: &mut HashSet<u8>,
)
    ensures
        zones_view(final(data)@) == apply_member(zones_view(old(data)@), index.view(), (name, value)),
        final(touched)@ == (if index.view().contains_key(name@) {
            old(touched)@.insert(index.view()[name@])
        } else {
            old(touched)@
        }),
{
    let ghost before = zones_view(data@);
    match index.get(name.as_str()) {
        None => {
            assert(zones_view(data@) =~= apply_member(before, index.view(), (name, value)));
        }
        Some(zone_ref) => {
            let zone: u8 = *zone_ref;
            let ghost key = name@;
            let ghost v = value;
            let mut zone_data = match data.remove(&zone) {
                Some(d) => d,
                None => PropertyMap::new(),
            };
            assert(zone_data.view() == (if before.contains_key(zone) { before[zone] } else { no_property_data::<V>() }));
            zone_data.insert(name, value);
            data.insert(zone, zone_data);
            touched.insert(zone);
            assert(zones_view(data@) =~= apply_member(before, index.view(), (name, v)));
        }
    }
}

fn write_members<V>(
    data: &mut HashMap<u8, PropertyMap<V>>,
    index: &PropertyMap<u8>,
    members: Vec<(String, V)>,
    touched: &mut HashSet<u8>,
)
    ensures
        zones_view(final(data)@) == apply_members(zones_view(old(data)@), index.view(), members@),
        final(touched)@ == old(touched)@.union(touched_zones(index.view(), members@)),
{
    let ghost start = zones_view(data@);
    let ghost start_touched = touched@;
    let ghost all = members@;
    let mut rest = members;
    let total = rest.len();
    let mut k: usize = 0;
    while rest.len() > 0
        invariant
            total == all.len(),
            k <= all.len(),
            rest@ == all.subrange(k as int, all.len() as int),
            zones_view(data@) == apply_members(start, index.view(), all.subrange(0, k as int)),
            touched@ == start_touched.union(touched_zones(index.view(), all.subrange(0, k as int))),
        decreases rest@.len(),
    {
        let ghost processed = all.subrange(0, k as int);
        assert(rest@.len() == all.len() - k);
        let (name, value) = rest.remove(0);
        assert(all[k as int] == (name, value));
        let ghost member = (name, value);
        write_member(data, index, name, value, touched);
        k = k + 1;
        assert(all.subrange(0, k as int).drop_last() =~= processed);
        assert(all.subrange(0, k as int).last() == member);
        assert(rest@ =~= all.subrange(k as int, all.len() as int));
        assert(touched@ =~= start_touched.union(touched_zones(index.view(), all.subrange(0, k as int))));
    }
    assert(all.subrange(0, k as int) =~= all);
}

/// The compression a zone's replication layer uses.
#[derive(Debug, Clone, Copy, PartialEq, Eq, Structural)]
pub enum Compression {
    /// Delta encoding (zone 0).
    Delta,
    /// LZ4 (zones 1 and 2).
    Lz4,
    /// High compression (every other zone).
    High,
}

/// The compression of a zone: delta for zone 0, LZ4 for zones 1 and 2, high
/// compression for the rest.
pub open spec fn zone_compression(zone: u8) -> Compression {
    if zone == 0 {
        Compression::Delta
    } else if zone == 1 || zone == 2 {
        Compression::Lz4
    } else {
        Compression::High
    }
}

/// The compression a zone's replication layer uses.
pub fn compression_for_zone(zone: u8) -> (r: Compression)
    ensures
        r == zone_compression(zone),
        (r == Compression::Delta) <==> zone == 0,
        (r == Compression::Lz4) <==> (zone == 1 || zone == 2),
        (r == Compression::High) <==> zone >= 3,
{
    match zone {
        0 => Compression::Delta,
        1 | 2 => Compression::Lz4,
        _ => Compression::High,
    }
}

impl ObjectDefinition {
    /// A definition from its channels: the channels in order, and an index
    /// that places each named property in the zone of the last channel that
    /// names it.
    pub fn new(name: String, channels: Vec<ChannelDefinition>) -> (r: ObjectDefinition)
        ensures
            r.name@ == name@,
            r.index.view() == channels_index(channels@),
            r.channels@ == channels@.map_values(|d: ChannelDefinition| channel_of(d)),
            r.channels@.len() == channels@.len(),
            forall|i: int| 0 <= i < channels@.len() ==> {
                &&& #[trigger] r.channels@[i].zone == channels@[i].zone
                &&& r.channels@[i].distance_bits == channels@[i].distance_bits
                &&& r.channels@[i].frequency_bits == channels@[i].frequency_bits
            },
    {
        let mut index: PropertyMap<u8> = PropertyMap::new();
        let mut out: Vec<Channel> = Vec::new();
        let mut i: usize = 0;
        while i < channels.len()
            invariant
                i <= channels@.len(),
                index.view() == channels_index(channels@.subrange(0, i as int)),
                out@ == channels@.subrange(0, i as int).map_values(|d: ChannelDefinition| channel_of(d)),
            decreases channels@.len() - i,
        {
            let def = &channels[i];
            let ghost prefix = channels@.subrange(0, i as int);
            out.push(Channel { zone: def.zone, distance_bits: def.distance_bits, frequency_bits: def.frequency_bits });
            let ghost start = index.view();
            let mut j: usize = 0;
            while j < def.properties.len()
                invariant
                    j <= def.properties@.len(),
                    index.view() == assign_properties(start, def.properties@.subrange(0, j as int), def.zone),
                decreases def.properties@.len() - j,
            {
                let ghost props_before = def.properties@.subrange(0, j as int);
                match &def.properties[j] {
                    Some(p) => {
                        index.insert(p.clone(), def.zone);
                    }
                    None => {}
                }
                j = j + 1;
                assert(def.properties@.subrange(0, j as int).drop_last() =~= props_before);
            }
            assert(def.properties@.subrange(0, j as int) =~= def.properties@);
            i = i + 1;
            assert(channels@.subrange(0, i as int).drop_last() =~= prefix);
            assert(out@ =~= channels@.subrange(0, i as int).map_values(|d: ChannelDefinition| channel_of(d)));
        }
        assert(channels@.subrange(0, i as int) =~= channels@);
        ObjectDefinition { name, index, channels: out }
    }

    /// Places a request's data into zones: each member whose name the index
    /// knows goes into its zone; `null` gives no data; any value other than
    /// an object or `null` is refused.
    pub fn order_data<V>(&self, data: JsonInput<V>) -> (r: Result<HashMap<u8, PropertyMap<V>>, String>)
        ensures
            match ordered_data(self.index.view(), data) {
                Some(zones) => r matches Ok(m) && zones_view(m@) == zones,
                None => r matches Err(e) && e@ == "object creation error: Invalid data input"@,
            },
    {
        match data {
            JsonInput::Null => {
                let m: HashMap<u8, PropertyMap<V>> = HashMap::new();
                assert(zones_view(m@) =~= no_zone_data::<V>());
                Ok(m)
            }
            JsonInput::Object(members) => {
                let mut m: HashMap<u8, PropertyMap<V>> = HashMap::new();
                let mut touched: HashSet<u8> = HashSet::new();
                assert(zones_view(m@) =~= no_zone_data::<V>());
                write_members(&mut m, &self.index, members, &mut touched);
                Ok(m)
            }
            JsonInput::Other => Err(String::from_str("object creation error: Invalid data input")),
        }
    }
}

/// Whether a property entry is the name `name`.
pub open spec fn entry_names(entry: Option<String>, name: Seq<char>) -> bool {
    entry matches Some(s) && s@ == name
}

/// Whether a list of property entries names the property `name`.
pub open spec fn lists_property(props: Seq<Option<String>>, name: Seq<char>) -> bool {
    exists|j: int| 0 <= j < props.len() && entry_names(#[trigger] props[j], name)
}

proof fn lemma_assign_properties(index: Map<Seq<char>, u8>, props: Seq<Option<String>>, zone: u8, name: Seq<char>)
    ensures
        assign_properties(index, props, zone).contains_key(name) == (index.contains_key(name) || lists_property(props, name)),
        lists_property(props, name) ==> assign_properties(index, props, zone)[name] == zone,
        !lists_property(props, name) && index.contains_key(name) ==> assign_properties(index, props, zone)[name] == index[name],
    decreases props.len(),
{
    if props.len() > 0 {
        let before = props.drop_last();
        lemma_assign_properties(index, before, zone, name);
        if lists_property(before, name) {
            let j = choose|j: int| 0 <= j < before.len() && entry_names(#[trigger] before[j], name);
            assert(props[j] == before[j]);
        }
        if lists_property(props, name) && !entry_names(props.last(), name) {
            let j = choose|j: int| 0 <= j < props.len() && entry_names(#[trigger] props[j], name);
            assert(j < props.len() - 1);
            assert(before[j] == props[j]);
        }
        if entry_names(props.last(), name) {
            assert(props[props.len() - 1] == props.last());
        }
    }
}

/// A definition's index holds exactly the properties that some channel
/// names, each in the zone of a channel that names it, and a property named
/// by the last channel is placed in that channel's zone.
pub proof fn index_places_named_properties(defs: Seq<ChannelDefinition>, name: Seq<char>)
    ensures
        channels_index(defs).contains_key(name)
            <==> exists|i: int| 0 <= i < defs.len() && lists_property((#[trigger] defs[i]).properties@, name),
        channels_index(defs).contains_key(name) ==> exists|i: int| 0 <= i < defs.len()
            && lists_property((#[trigger] defs[i]).properties@, name) && defs[i].zone == channels_index(defs)[name],
        defs.len() > 0 && lists_property(defs.last().properties@, name) ==> channels_index(defs)[name] == defs.last().zone,
    decreases defs.len(),
{
    if defs.len() > 0 {
        let before = defs.drop_last();
        let last = defs.last();
        index_places_named_properties(before, name);
        lemma_assign_properties(channels_index(before), last.properties@, last.zone, name);
        assert(defs[defs.len() - 1] == last);
        if exists|i: int| 0 <= i < before.len() && lists_property((#[trigger] before[i]).properties@, name) {
            let i = choose|i: int| 0 <= i < before.len() && lists_property((#[trigger] before[i]).properties@, name);
            assert(defs[i] == before[i]);
        }
        if exists|i: int| 0 <= i < defs.len() && lists_property((#[trigger] defs[i]).properties@, name) {
            let i = choose|i: int| 0 <= i < defs.len() && lists_property((#[trigger] defs[i]).properties@, name);
            if i < defs.len() - 1 {
                assert(before[i] == defs[i]);
            }
        }
        if channels_index(defs).contains_key(name) && !lists_property(last.properties@, name) {
            let i = choose|i: int| 0 <= i < before.len()
                && lists_property((#[trigger] before[i]).properties@, name) && before[i].zone == channels_index(before)[name];
            assert(defs[i] == before[i]);
        }
    }
}

/// A definition's channels keep, in order, the zone, distance and frequency
/// of the channel definitions they come from.
pub proof fn channels_keep_their_settings(defs: Seq<ChannelDefinition>, i: int)
    requires
        0 <= i < defs.len(),
    ensures
        defs.map_values(|d: ChannelDefinition| channel_of(d))[i].zone == defs[i].zone,
        defs.map_values(|d: ChannelDefinition| channel_of(d))[i].distance_bits == defs[i].distance_bits,
        defs.map_values(|d: ChannelDefinition| channel_of(d))[i].frequency_bits == defs[i].frequency_bits,
{
}

/// The compression of a zone: delta exactly for zone 0, LZ4 exactly for
/// zones 1 and 2, high compression for every zone from 3 on.
pub proof fn compression_by_zone(zone: u8)
    ensures
        (zone_compression(zone) == Compression::Delta) <==> zone == 0,
        (zone_compression(zone) == Compression::Lz4) <==> (zone == 1 || zone == 2),
        (zone_compression(zone) == Compression::High) <==> zone >= 3,
{
}

/// A new prop has every zone of its definition marked, one per channel and
/// in order; a known prop is updated.
pub proof fn new_props_mark_every_channel(channels: Seq<Channel>, i: int)
    requires
        0 <= i < channels.len(),
    ensures
        channel_zones(channels).len() == channels.len(),
        channel_zones(channels)[i] == channels[i].zone,
{
}

/// What a plugin's request for a prop leads to.
#[derive(Debug, Clone)]
pub enum PropRequestAction {
    /// The prop is new: it is created, and these zones are marked for
    /// replication (one per channel of its definition, in order).
    Create { zones: Vec<u8> },
    /// The prop is known: it is updated, and the zones the update touches are
    /// marked for replication.
    Update,
}

/// The zones of a definition's channels, in order.
pub open spec fn channel_zones(channels: Seq<Channel>) -> Seq<u8> {
    channels.map_values(|c: Channel| c.zone)
}

/// Decides what a plugin's request for a prop does: a prop whose UUID is not
/// `known` is created and every zone of its definition is marked; a known
/// one is updated.
pub fn decide_prop_request(known: bool, definition: &ObjectDefinition) -> (r: PropRequestAction)
    ensures
        known ==> r is Update,
        !known ==> (r matches PropRequestAction::Create { zones } && zones@ == channel_zones(definition.channels@)),
        !known ==> (r matches PropRequestAction::Create { zones } && zones@.len() == definition.channels@.len()
            && forall|i: int| 0 <= i < zones@.len() ==> #[trigger] zones@[i] == definition.channels@[i].zone),
{
    if known {
        return PropRequestAction::Update;
    }
    let mut zones: Vec<u8> = Vec::new();
    let mut i: usize = 0;
    while i < definition.channels.len()
        invariant
            i <= definition.channels@.len(),
            zones@ == channel_zones(definition.channels@.subrange(0, i as int)),
        decreases definition.channels@.len() - i,
    {
        zones.push(definition.channels[i].zone);
        i = i + 1;
        assert(zones@ =~= channel_zones(definition.channels@.subrange(0, i as int)));
    }
    assert(definition.channels@.subrange(0, i as int) =~= definition.channels@);
    PropRequestAction::Create { zones }
}

/// A generic prop: its definition, its UUID and its data, per zone.
#[derive(Debug, Clone)]
pub struct GenericProps<V> {
    /// The definition of the prop's kind.
    pub object_def: ObjectDefinition,
    /// The prop's UUID.
    pub uuid: String,
    /// The prop's properties, per replication zone.
    pub data: HashMap<u8, PropertyMap<V>>,
}

impl<V> GenericProps<V> {
    /// A prop of the given kind, its data placed into zones, keeping the given
    /// UUID or generating one where it is empty. The data must be an object
    /// or `null`.
    pub fn new(object_def: ObjectDefinition, data: JsonInput<V>, uuid: String) -> (r: GenericProps<V>)
        requires
            !(data is Other),
        ensures
            r.object_def == object_def,
            uuid@.len() > 0 ==> r.uuid@ == uuid@,
            uuid@.len() == 0 ==> is_v4_uuid_text(r.uuid@),
            Some(zones_view(r.data@)) == ordered_data(object_def.index.view(), data),
    {
        let uuid = uuid_or_generate(uuid);
        let data = match object_def.order_data(data) {
            Ok(d) => d,
            Err(_) => HashMap::new(),
        };
        GenericProps { object_def, uuid, data }
    }

    /// Writes the members of an object into their zones and returns the zones
    /// it touched; `null` and other values change nothing.
    pub fn update(&mut self, new_data: JsonInput<V>) -> (touched: HashSet<u8>)
        ensures
            final(self).object_def == old(self).object_def,
            final(self).uuid == old(self).uuid,
            match new_data {
                JsonInput::Object(members) => {
                    &&& zones_view(final(self).data@) == apply_members(zones_view(old(self).data@), old(self).object_def.index.view(), members@)
                    &&& touched@ == touched_zones(old(self).object_def.index.view(), members@)
                },
                _ => {
                    &&& final(self).data@ == old(self).data@
                    &&& touched@ == Set::<u8>::empty()
                },
            },
    {
        let mut touched: HashSet<u8> = HashSet::new();
        match new_data {
            JsonInput::Object(members) => {
                write_members(&mut self.data, &self.object_def.index, members, &mut touched);
                assert(touched@ =~= touched_zones(self.object_def.index.view(), members@));
            }
            _ => {}
        }
        touched
    }
}

/// Updating a prop with the members of one object and then with those of
/// another gives the same data, and touches the same zones, as updating it
/// once with the members of both in turn.
pub proof fn updates_compose<V>(
    data: Map<u8, Map<Seq<char>, V>>,
    index: Map<Seq<char>, u8>,
    first: Seq<(String, V)>,
    second: Seq<(String, V)>,
)
    ensures
        apply_members(apply_members(data, index, first), index, second) == apply_members(data, index, first + second),
        touched_zones(index, first).union(touched_zones(index, second)) == touched_zones(index, first + second),
    decreases second.len(),
{
    if second.len() == 0 {
        assert(first + second =~= first);
        assert(touched_zones(index, first).union(touched_zones(index, second)) =~= touched_zones(index, first));
    } else {
        updates_compose(data, index, first, second.drop_last());
        assert((first + second).drop_last() =~= first + second.drop_last());
        assert((first + second).last() == second.last());
        assert(touched_zones(index, first).union(touched_zones(index, second)) =~= touched_zones(index, first + second));
    }
}

/// A zone that an update does not touch keeps its data: it is present after
/// the update exactly when it was before, with the same properties.
pub proof fn untouched_zones_are_unchanged<V>(
    data: Map<u8, Map<Seq<char>, V>>,
    index: Map<Seq<char>, u8>,
    members: Seq<(String, V)>,
    zone: u8,
)
    requires
        !touched_zones(index, members).contains(zone),
    ensures
        apply_members(data, index, members).contains_key(zone) == data.contains_key(zone),
        data.contains_key(zone) ==> apply_members(data, index, members)[zone] == data[zone],
    decreases members.len(),
{
    if members.len() > 0 {
        untouched_zones_are_unchanged(data, index, members.drop_last(), zone);
    }
}

/// Every zone an update touches holds data after it.
pub proof fn touched_zones_hold_data<V>(
    data: Map<u8, Map<Seq<char>, V>>,
    index: Map<Seq<char>, u8>,
    members: Seq<(String, V)>,
    zone: u8,
)
    requires
        touched_zones(index, members).contains(zone),
    ensures
        apply_members(data, index, members).contains_key(zone),
    decreases members.len(),
{
    if members.len() > 0 {
        let before = members.drop_last();
        if touched_zones(index, before).contains(zone) {
            touched_zones_hold_data(data, index, before, zone);
        }
    }
}

/// Whether every property held in a zone is one that the index places in
/// that zone.
pub open spec fn placed_by_index<V>(data: Map<u8, Map<Seq<char>, V>>, index: Map<Seq<char>, u8>) -> bool {
    forall|zone: u8, name: Seq<char>|
        #[trigger] data.contains_key(zone) && #[trigger] data[zone].contains_key(name) ==> index.contains_key(name) && index[name] == zone
}

/// Updates keep every property in the zone its definition assigns: where
/// the data was so placed before an update, it is so placed after it.
pub proof fn updates_keep_placement<V>(
    data: Map<u8, Map<Seq<char>, V>>,
    index: Map<Seq<char>, u8>,
    members: Seq<(String, V)>,
)
    requires
        placed_by_index(data, index),
    ensures
        placed_by_index(apply_members(data, index, members), index),
    decreases members.len(),
{
    if members.len() > 0 {
        updates_keep_placement(data, index, members.drop_last());
    }
}

/// An indexed property written by an update holds, after it, the value of
/// the last member that carries its name.
pub proof fn last_write_wins<V>(
    data: Map<u8, Map<Seq<char>, V>>,
    index: Map<Seq<char>, u8>,
    members: Seq<(String, V)>,
    i: int,
)
    requires
        0 <= i < members.len(),
        index.contains_key(members[i].0@),
        forall|j: int| i < j < members.len() ==> members[j].0@ != members[i].0@,
    ensures
        apply_members(data, index, members).contains_key(index[members[i].0@]),
        apply_members(data, index, members)[index[members[i].0@]].contains_key(members[i].0@),
        apply_members(data, index, members)[index[members[i].0@]][members[i].0@] == members[i].1,
    decreases members.len(),
{
    let name = members[i].0@;
    let zone = index[name];
    if i < members.len() - 1 {
        let before = members.drop_last();
        assert(before[i] == members[i]);
        assert forall|j: int| i < j < before.len() implies before[j].0@ != before[i].0@ by {
            assert(before[j] == members[j]);
        }
        last_write_wins(data, index, before, i);
        assert(members[members.len() - 1].0@ != name);
    }
}

/// The value that the last member named `name` carries, if any member does.
pub open spec fn last_value_of<V>(members: Seq<(String, V)>, name: Seq<char>) -> Option<V>
    decreases members.len(),
{
    if members.len() == 0 {
        None
    } else if members.last().0@ == name {
        Some(members.last().1)
    } else {
        last_value_of(members.drop_last(), name)
    }
}

/// Whether an update writes the property `name` into `zone`.
pub open spec fn writes<V>(index: Map<Seq<char>, u8>, members: Seq<(String, V)>, zone: u8, name: Seq<char>) -> bool {
    index.contains_key(name) && index[name] == zone && last_value_of(members, name) is Some
}

proof fn lemma_apply_members_pointwise<V>(
    data: Map<u8, Map<Seq<char>, V>>,
    index: Map<Seq<char>, u8>,
    members: Seq<(String, V)>,
    zone: u8,
    name: Seq<char>,
)
    ensures
        apply_members(data, index, members).contains_key(zone)
            == (data.contains_key(zone) || touched_zones(index, members).contains(zone)),
        writes(index, members, zone, name) ==> touched_zones(index, members).contains(zone),
        apply_members(data, index, members).contains_key(zone) ==> (
            apply_members(data, index, members)[zone].contains_key(name)
                == ((data.contains_key(zone) && data[zone].contains_key(name)) || writes(index, members, zone, name))),
        writes(index, members, zone, name) ==>
            apply_members(data, index, members)[zone][name] == last_value_of(members, name)->0,
        !writes(index, members, zone, name) && data.contains_key(zone) && data[zone].contains_key(name) ==>
            apply_members(data, index, members)[zone][name] == data[zone][name],
    decreases members.len(),
{
    if members.len() > 0 {
        lemma_apply_members_pointwise(data, index, members.drop_last(), zone, name);
    }
}

/// Updating a prop twice with the same object leaves the data as the first
/// update left it (and, the index being unchanged, touches the same zones).
pub proof fn updates_are_idempotent<V>(
    data: Map<u8, Map<Seq<char>, V>>,
    index: Map<Seq<char>, u8>,
    members: Seq<(String, V)>,
)
    ensures
        apply_members(apply_members(data, index, members), index, members) == apply_members(data, index, members),
{
    let once = apply_members(data, index, members);
    let twice = apply_members(once, index, members);
    assert forall|zone: u8| #[trigger] twice.contains_key(zone) == once.contains_key(zone) by {
        lemma_apply_members_pointwise(data, index, members, zone, Seq::empty());
        lemma_apply_members_pointwise(once, index, members, zone, Seq::empty());
    }
    assert forall|zone: u8| #[trigger] twice.contains_key(zone) implies twice[zone] =~= once[zone] by {
        assert forall|name: Seq<char>| #[trigger] twice[zone].contains_key(name) == once[zone].contains_key(name) by {
            lemma_apply_members_pointwise(data, index, members, zone, name);
            lemma_apply_members_pointwise(once, index, members, zone, name);
        }
        assert forall|name: Seq<char>| #[trigger] twice[zone].contains_key(name) implies twice[zone][name] == once[zone][name] by {
            lemma_apply_members_pointwise(data, index, members, zone, name);
            lemma_apply_members_pointwise(once, index, members, zone, name);
        }
    }
    assert(twice =~= once);
}

/// Creating a prop from an object gives the data that updating a prop of the
/// same kind that holds no data with that object gives.
pub proof fn creation_is_update_of_empty<V>(index: Map<Seq<char>, u8>, data: JsonInput<V>)
    requires
        data is Object,
    ensures
        ordered_data(index, data) == Some(apply_members(no_zone_data::<V>(), index, data->0@)),
{
}

} // verus!
