//! The capabilities of a BGP session, and how the two sides' capabilities
//! combine into those that govern the session.

use vstd::prelude::*;

verus! {

/// An address family: the AFI and the SAFI, as the numbers that stand for
/// them on the wire.
pub type Family = (u16, u8);

/// An outbound route filter: its family, the ORF type, and the direction, as
/// numbers.
pub type FilterEntry = (u16, u8, u8, u8);

/// A value that is kept for a family.
pub type FamilyEntry<V> = (Family, V);

/// What a BGP speaker can do, as far as it decides how an UPDATE is read.
///
/// A field that is a set is held as a list in which the order and the
/// repetitions mean nothing. A field that is keyed by family is held as a
/// list of entries; of two entries for one family the first counts.
#[derive(Debug)]
pub struct CapabilitySet {
    /// Multiprotocol extensions: the families supported
    pub mp_bgp: Vec<Family>,
    /// Route refresh
    pub route_refresh: bool,
    /// Outbound route filtering: the filters supported
    pub outbound_route_filtering: Vec<FilterEntry>,
    /// Extended next hop encoding: for a family, the AFI of the next hop
    pub extended_next_hop: Vec<FamilyEntry<u16>>,
    /// BGPsec
    pub bgpsec: bool,
    /// Multiple labels: for a family, the number of labels
    pub multiple_labels: Vec<FamilyEntry<u8>>,
    /// Graceful restart: the families supported
    pub graceful_restart: Vec<Family>,
    /// Four-octet AS numbers
    pub four_octet_asn: bool,
    /// ADD-PATH: for a family, the direction
    pub add_path: Vec<FamilyEntry<u8>>,
    /// NLRI extended with a path identifier
    pub extended_path_nlri: bool,
    /// Enhanced route refresh
    pub enhanced_route_refresh: bool,
    /// Long-lived graceful restart
    pub long_lived_graceful_restart: bool,
}

/// A [`CapabilitySet`] as sets and maps.
pub struct CapabilityModel {
    pub mp_bgp: Set<Family>,
    pub route_refresh: bool,
    pub outbound_route_filtering: Set<FilterEntry>,
    pub extended_next_hop: Map<Family, u16>,
    pub bgpsec: bool,
    pub multiple_labels: Map<Family, u8>,
    pub graceful_restart: Set<Family>,
    pub four_octet_asn: bool,
    pub add_path: Map<Family, u8>,
    pub extended_path_nlri: bool,
    pub enhanced_route_refresh: bool,
    pub long_lived_graceful_restart: bool,
}

/// The map that a list of entries stands for: of two entries for one family
/// the first counts.
pub open spec fn entries_map<V>(entries: Seq<FamilyEntry<V>>) -> Map<Family, V>
    decreases entries.len(),
{
    if entries.len() == 0 {
        Map::empty()
    } else {
        let before = entries_map(entries.drop_last());
        if before.contains_key(entries.last().0) {
            before
        } else {
            before.insert(entries.last().0, entries.last().1)
        }
    }
}

impl View for CapabilitySet {
    type V = CapabilityModel;

    open spec fn view(&self) -> CapabilityModel {
        CapabilityModel {
            mp_bgp: self.mp_bgp@.to_set(),
            route_refresh: self.route_refresh,
            outbound_route_filtering: self.outbound_route_filtering@.to_set(),
            extended_next_hop: entries_map(self.extended_next_hop@),
            bgpsec: self.bgpsec,
            multiple_labels: entries_map(self.multiple_labels@),
            graceful_restart: self.graceful_restart@.to_set(),
            four_octet_asn: self.four_octet_asn,
            add_path: entries_map(self.add_path@),
            extended_path_nlri: self.extended_path_nlri,
            enhanced_route_refresh: self.enhanced_route_refresh,
            long_lived_graceful_restart: self.long_lived_graceful_restart,
        }
    }
}

impl CapabilityModel {
    /// The capabilities of a speaker that supports nothing.
    pub open spec fn none() -> CapabilityModel {
        CapabilityModel {
            mp_bgp: Set::empty(),
            route_refresh: false,
            outbound_route_filtering: Set::empty(),
            extended_next_hop: Map::empty(),
            bgpsec: false,
            multiple_labels: Map::empty(),
            graceful_restart: Set::empty(),
            four_octet_asn: false,
            add_path: Map::empty(),
            extended_path_nlri: false,
            enhanced_route_refresh: false,
            long_lived_graceful_restart: false,
        }
    }

    /// What both of two speakers support. A flag is set where both set it; a
    /// set holds what both hold; a map keeps the entries of `self` for the
    /// families that `other` has an entry for, whatever that entry is. NLRI
    /// carry a path identifier exactly where an ADD-PATH entry is left.
    pub open spec fn common(self, other: CapabilityModel) -> CapabilityModel {
        let add_path = self.add_path.restrict(other.add_path.dom());
        CapabilityModel {
            mp_bgp: self.mp_bgp.intersect(other.mp_bgp),
            route_refresh: self.route_refresh && other.route_refresh,
            outbound_route_filtering: self.outbound_route_filtering.intersect(
                other.outbound_route_filtering,
            ),
            extended_next_hop: self.extended_next_hop.restrict(other.extended_next_hop.dom()),
            bgpsec: self.bgpsec && other.bgpsec,
            multiple_labels: self.multiple_labels.restrict(other.multiple_labels.dom()),
            graceful_restart: self.graceful_restart.intersect(other.graceful_restart),
            four_octet_asn: self.four_octet_asn && other.four_octet_asn,
            add_path,
            extended_path_nlri: exists|family: Family| add_path.contains_key(family),
            enhanced_route_refresh: self.enhanced_route_refresh && other.enhanced_route_refresh,
            long_lived_graceful_restart: self.long_lived_graceful_restart
                && other.long_lived_graceful_restart,
        }
    }

    /// These capabilities with the four-octet AS number capability as the
    /// per-peer header has it: set exactly where the header's flag `A`, which
    /// announces two-byte AS numbers, is clear.
    pub open spec fn with_header_flag(self, two_byte_asn: bool) -> CapabilityModel {
        CapabilityModel { four_octet_asn: !two_byte_asn, ..self }
    }

    /// The capabilities of a session: what both OPEN messages announce, or
    /// nothing where one of them was not seen; then the header's flag decides
    /// on four-octet AS numbers.
    pub open spec fn session(
        sent: Option<CapabilityModel>,
        received: Option<CapabilityModel>,
        two_byte_asn: bool,
    ) -> CapabilityModel {
        if sent is Some && received is Some {
            sent->0.common(received->0).with_header_flag(two_byte_asn)
        } else {
            CapabilityModel::none().with_header_flag(two_byte_asn)
        }
    }
}

/// Whether `list` holds `family`.
pub fn holds_family(list: &Vec<Family>, family: Family) -> (found: bool)
    ensures
        found == list@.to_set().contains(family),
{
    let mut i: usize = 0;
    while i < list.len()
        invariant
            i <= list.len(),
            forall|j: int| 0 <= j < i ==> list@[j] != family,
        decreases list.len() - i,
    {
        if list[i].0 == family.0 && list[i].1 == family.1 {
            assert(list@[i as int] == family);
            return true;
        }
        i += 1;
    }
    false
}

/// Whether `list` holds `filter`.
pub fn holds_filter(list: &Vec<FilterEntry>, filter: FilterEntry) -> (found: bool)
    ensures
        found == list@.to_set().contains(filter),
{
    let mut i: usize = 0;
    while i < list.len()
        invariant
            i <= list.len(),
            forall|j: int| 0 <= j < i ==> list@[j] != filter,
        decreases list.len() - i,
    {
        if list[i].0 == filter.0 && list[i].1 == filter.1 && list[i].2 == filter.2 && list[i].3
            == filter.3 {
            assert(list@[i as int] == filter);
            return true;
        }
        i += 1;
    }
    false
}

/// The families that both lists hold.
pub fn common_families(source: &Vec<Family>, other: &Vec<Family>) -> (both: Vec<Family>)
    ensures
        both@.to_set() == source@.to_set().intersect(other@.to_set()),
{
    let mut both: Vec<Family> = Vec::new();
    let mut i: usize = 0;
    while i < source.len()
        invariant
            i <= source.len(),
            forall|f: Family|
                both@.contains(f) <==> (source@.take(i as int).contains(f) && other@.contains(f)),
        decreases source.len() - i,
    {
        let family = source[i];
        let ghost before = both@;
        let found = holds_family(other, family);
        if found {
            both.push(family);
        }
        proof {
            let prev = source@.take(i as int);
            let next = source@.take(i + 1);
            assert(next =~= prev.push(family));
            assert forall|f: Family|
                both@.contains(f) <==> (next.contains(f) && other@.contains(f)) by {
                lemma_push_contains(prev, family, f);
                if found {
                    lemma_push_contains(before, family, f);
                }
            }
        }
        i += 1;
    }
    proof {
        assert(source@.take(source.len() as int) =~= source@);
        assert(both@.to_set() =~= source@.to_set().intersect(other@.to_set()));
    }
    both
}

/// The filters that both lists hold.
pub fn common_filters(source: &Vec<FilterEntry>, other: &Vec<FilterEntry>) -> (both: Vec<
    FilterEntry,
>)
    ensures
        both@.to_set() == source@.to_set().intersect(other@.to_set()),
{
    let mut both: Vec<FilterEntry> = Vec::new();
    let mut i: usize = 0;
    while i < source.len()
        invariant
            i <= source.len(),
            forall|f: FilterEntry|
                both@.contains(f) <==> (source@.take(i as int).contains(f) && other@.contains(f)),
        decreases source.len() - i,
    {
        let filter = source[i];
        let ghost before = both@;
        let found = holds_filter(other, filter);
        if found {
            both.push(filter);
        }
        proof {
            let prev = source@.take(i as int);
            let next = source@.take(i + 1);
            assert(next =~= prev.push(filter));
            assert forall|f: FilterEntry|
                both@.contains(f) <==> (next.contains(f) && other@.contains(f)) by {
                lemma_push_contains(prev, filter, f);
                if found {
                    lemma_push_contains(before, filter, f);
                }
            }
        }
        i += 1;
    }
    proof {
        assert(source@.take(source.len() as int) =~= source@);
        assert(both@.to_set() =~= source@.to_set().intersect(other@.to_set()));
    }
    both
}

/// A family has an entry in the map of a list exactly where the list holds an
/// entry for it.
pub proof fn lemma_entries_map_keys<V>(entries: Seq<FamilyEntry<V>>, family: Family)
    ensures
        entries_map(entries).contains_key(family) <==> exists|j: int|
            0 <= j < entries.len() && (#[trigger] entries[j]).0 == family,
    decreases entries.len(),
{
    if entries.len() > 0 {
        let front = entries.drop_last();
        lemma_entries_map_keys(front, family);
        if entries_map(entries).contains_key(family) {
            if entries_map(front).contains_key(family) {
                let j = choose|j: int| 0 <= j < front.len() && (#[trigger] front[j]).0 == family;
                assert(entries[j].0 == family);
            } else {
                assert(entries[entries.len() - 1].0 == family);
            }
        }
        if exists|j: int| 0 <= j < entries.len() && (#[trigger] entries[j]).0 == family {
            let j = choose|j: int| 0 <= j < entries.len() && (#[trigger] entries[j]).0 == family;
            if j < front.len() {
                assert(front[j].0 == family);
            }
        }
    }
}

/// Whether `entries` hold an entry for `family`.
pub fn holds_key<V>(entries: &Vec<FamilyEntry<V>>, family: Family) -> (found: bool)
    ensures
        found == entries_map(entries@).contains_key(family),
{
    let mut i: usize = 0;
    while i < entries.len()
        invariant
            i <= entries.len(),
            forall|j: int| 0 <= j < i ==> (#[trigger] entries@[j]).0 != family,
        decreases entries.len() - i,
    {
        if entries[i].0.0 == family.0 && entries[i].0.1 == family.1 {
            proof {
                assert(entries@[i as int].0 == family);
                lemma_entries_map_keys(entries@, family);
            }
            return true;
        }
        i += 1;
    }
    proof {
        lemma_entries_map_keys(entries@, family);
    }
    false
}

/// The entries of `source` for the families that `other` has an entry for.
pub fn common_entries<V: Copy, W>(
    source: &Vec<FamilyEntry<V>>,
    other: &Vec<FamilyEntry<W>>,
) -> (kept: Vec<FamilyEntry<V>>)
    ensures
        entries_map(kept@) == entries_map(source@).restrict(entries_map(other@).dom()),
{
    let mut kept: Vec<FamilyEntry<V>> = Vec::new();
    let mut i: usize = 0;
    proof {
        assert(entries_map(kept@) =~= entries_map(source@.take(0)).restrict(
            entries_map(other@).dom(),
        ));
    }
    while i < source.len()
        invariant
            i <= source.len(),
            entries_map(kept@) == entries_map(source@.take(i as int)).restrict(
                entries_map(other@).dom(),
            ),
        decreases source.len() - i,
    {
        let entry = source[i];
        let ghost before = kept@;
        let found = holds_key(other, entry.0);
        if found {
            kept.push(entry);
        }
        proof {
            let prev = source@.take(i as int);
            let next = source@.take(i + 1);
            assert(next.drop_last() =~= prev);
            assert(next.last() == entry);
            if found {
                assert(kept@.drop_last() =~= before);
                assert(kept@.last() == entry);
            }
            assert(entries_map(kept@) =~= entries_map(next).restrict(entries_map(other@).dom()));
        }
        i += 1;
    }
    proof {
        assert(source@.take(source.len() as int) =~= source@);
    }
    kept
}

/// A copy of a list.
pub fn copy_list<T: Copy>(list: &Vec<T>) -> (copy: Vec<T>)
    ensures
        copy@ == list@,
{
    let mut copy: Vec<T> = Vec::new();
    let mut i: usize = 0;
    while i < list.len()
        invariant
            i <= list.len(),
            copy@ == list@.take(i as int),
        decreases list.len() - i,
    {
        copy.push(list[i]);
        proof {
            assert(copy@ =~= list@.take(i + 1));
        }
        i += 1;
    }
    proof {
        assert(list@.take(list.len() as int) =~= list@);
    }
    copy
}

impl CapabilitySet {
    /// A copy of these capabilities.
    pub fn duplicate(&self) -> (copy: CapabilitySet)
        ensures
            copy@ == self@,
    {
        CapabilitySet {
            mp_bgp: copy_list(&self.mp_bgp),
            route_refresh: self.route_refresh,
            outbound_route_filtering: copy_list(&self.outbound_route_filtering),
            extended_next_hop: copy_list(&self.extended_next_hop),
            bgpsec: self.bgpsec,
            multiple_labels: copy_list(&self.multiple_labels),
            graceful_restart: copy_list(&self.graceful_restart),
            four_octet_asn: self.four_octet_asn,
            add_path: copy_list(&self.add_path),
            extended_path_nlri: self.extended_path_nlri,
            enhanced_route_refresh: self.enhanced_route_refresh,
            long_lived_graceful_restart: self.long_lived_graceful_restart,
        }
    }
}

impl Clone for CapabilitySet {
    fn clone(&self) -> (copy: CapabilitySet)
        ensures
            copy@ == self@,
    {
        self.duplicate()
    }
}

impl Default for CapabilitySet {
    /// The capabilities of a speaker that supports nothing.
    fn default() -> (none: CapabilitySet)
        ensures
            none@ == CapabilityModel::none(),
    {
        let none = CapabilitySet {
            mp_bgp: Vec::new(),
            route_refresh: false,
            outbound_route_filtering: Vec::new(),
            extended_next_hop: Vec::new(),
            bgpsec: false,
            multiple_labels: Vec::new(),
            graceful_restart: Vec::new(),
            four_octet_asn: false,
            add_path: Vec::new(),
            extended_path_nlri: false,
            enhanced_route_refresh: false,
            long_lived_graceful_restart: false,
        };
        proof {
            assert(none.mp_bgp@.to_set() =~= Set::<Family>::empty());
            assert(none.outbound_route_filtering@.to_set() =~= Set::<FilterEntry>::empty());
            assert(none.graceful_restart@.to_set() =~= Set::<Family>::empty());
        }
        none
    }
}

/// The capabilities that both sides of a session support: see
/// [`CapabilityModel::common`]. `source` is the side of the monitored router.
pub fn common_capabilities(source: &CapabilitySet, other: &CapabilitySet) -> (negotiated:
    CapabilitySet)
    ensures
        negotiated@ == source@.common(other@),
{
    let add_path = common_entries(&source.add_path, &other.add_path);
    let extended_path_nlri = add_path.len() > 0;
    proof {
        let kept = entries_map(add_path@);
        if add_path.len() > 0 {
            assert(kept.contains_key(add_path@[0].0)) by {
                lemma_entries_map_keys(add_path@, add_path@[0].0);
            }
        } else {
            assert forall|family: Family| !kept.contains_key(family) by {
                lemma_entries_map_keys(add_path@, family);
            }
        }
    }
    CapabilitySet {
        mp_bgp: common_families(&source.mp_bgp, &other.mp_bgp),
        route_refresh: source.route_refresh && other.route_refresh,
        outbound_route_filtering: common_filters(
            &source.outbound_route_filtering,
            &other.outbound_route_filtering,
        ),
        extended_next_hop: common_entries(&source.extended_next_hop, &other.extended_next_hop),
        bgpsec: source.bgpsec && other.bgpsec,
        multiple_labels: common_entries(&source.multiple_labels, &other.multiple_labels),
        graceful_restart: common_families(&source.graceful_restart, &other.graceful_restart),
        four_octet_asn: source.four_octet_asn && other.four_octet_asn,
        add_path,
        extended_path_nlri,
        enhanced_route_refresh: source.enhanced_route_refresh && other.enhanced_route_refresh,
        long_lived_graceful_restart: source.long_lived_graceful_restart
            && other.long_lived_graceful_restart,
    }
}

/// The capabilities of a session: what both sides announced in their OPEN
/// messages, or nothing where one of the two was not seen; the header's flag
/// `A`, given as `two_byte_asn`, then decides on four-octet AS numbers, whatever
/// the OPEN messages said.
pub fn session_capabilities(
    sent: Option<&CapabilitySet>,
    received: Option<&CapabilitySet>,
    two_byte_asn: bool,
) -> (session: CapabilitySet)
    ensures
        session@ == CapabilityModel::session(
            match sent {
                Some(c) => Some(c@),
                None => None,
            },
            match received {
                Some(c) => Some(c@),
                None => None,
            },
            two_byte_asn,
        ),
        session@.four_octet_asn == !two_byte_asn,
{
    let mut session = match (sent, received) {
        (Some(s), Some(r)) => common_capabilities(s, r),
        _ => CapabilitySet::default(),
    };
    session.four_octet_asn = !two_byte_asn;
    session
}

/// Negotiation does not depend on the order of the two sides, as far as flags,
/// sets and the families of the keyed fields go: each flag and each set of
/// `a.common(b)` equals that of `b.common(a)`, and each keyed field has entries
/// for the same families.
pub proof fn lemma_common_commutes(a: CapabilityModel, b: CapabilityModel)
    ensures
        a.common(b).mp_bgp == b.common(a).mp_bgp,
        a.common(b).route_refresh == b.common(a).route_refresh,
        a.common(b).outbound_route_filtering == b.common(a).outbound_route_filtering,
        a.common(b).bgpsec == b.common(a).bgpsec,
        a.common(b).graceful_restart == b.common(a).graceful_restart,
        a.common(b).four_octet_asn == b.common(a).four_octet_asn,
        a.common(b).extended_path_nlri == b.common(a).extended_path_nlri,
        a.common(b).enhanced_route_refresh == b.common(a).enhanced_route_refresh,
        a.common(b).long_lived_graceful_restart == b.common(a).long_lived_graceful_restart,
        a.common(b).extended_next_hop.dom() == b.common(a).extended_next_hop.dom(),
        a.common(b).multiple_labels.dom() == b.common(a).multiple_labels.dom(),
        a.common(b).add_path.dom() == b.common(a).add_path.dom(),
{
    assert(a.mp_bgp.intersect(b.mp_bgp) =~= b.mp_bgp.intersect(a.mp_bgp));
    assert(a.outbound_route_filtering.intersect(b.outbound_route_filtering)
        =~= b.outbound_route_filtering.intersect(a.outbound_route_filtering));
    assert(a.graceful_restart.intersect(b.graceful_restart) =~= b.graceful_restart.intersect(
        a.graceful_restart,
    ));
    assert(a.common(b).extended_next_hop.dom() =~= b.common(a).extended_next_hop.dom());
    assert(a.common(b).multiple_labels.dom() =~= b.common(a).multiple_labels.dom());
    assert(a.common(b).add_path.dom() =~= b.common(a).add_path.dom());
    let ab = a.common(b).add_path;
    let ba = b.common(a).add_path;
    assert forall|family: Family| ab.contains_key(family) <==> ba.contains_key(family) by {
        assert(ab.dom().contains(family) <==> ba.dom().contains(family));
    }
}

/// The header's flag decides on four-octet AS numbers whatever the OPEN
/// messages announced: the capability is set exactly where the flag is clear.
pub proof fn lemma_header_flag_decides(
    sent: Option<CapabilityModel>,
    received: Option<CapabilityModel>,
    two_byte_asn: bool,
)
    ensures
        CapabilityModel::session(sent, received, two_byte_asn).four_octet_asn == !two_byte_asn,
{
}

/// A list with one more item holds what it held, and the item.
pub proof fn lemma_push_contains<T>(list: Seq<T>, item: T, x: T)
    ensures
        list.push(item).contains(x) <==> (list.contains(x) || x == item),
{
    if list.contains(x) {
        let j = choose|j: int| 0 <= j < list.len() && list[j] == x;
        assert(list.push(item)[j] == x);
    }
    if x == item {
        assert(list.push(item)[list.len() as int] == x);
    }
}

} // verus!
