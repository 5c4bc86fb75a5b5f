//! The servers that the client is linked with, as they are kept between runs.

use vstd::prelude::*;

use crate::text;

verus! {

/// What is kept of all linked servers.
#[derive(Debug)]
pub struct ServerConfig {
    pub servers: Vec<ServerEntry>,
}

/// What is kept of one linked server.
#[derive(Debug)]
pub struct ServerEntry {
    /// The address under which the server was linked, written `host:port`.
    pub address: String,
    /// The identity under which this client is known to the server.
    pub client_uuid: String,
    /// The Minecraft account that the client is linked with.
    pub minecraft_uuid: String,
    /// The certificate that the server showed when it was linked, in base64.
    pub pinned_cert: Option<String>,
    pub supports_components: bool,
}

/// The mathematical content of a [`ServerEntry`].
pub struct EntryModel {
    pub address: Seq<char>,
    pub client_uuid: Seq<char>,
    pub minecraft_uuid: Seq<char>,
    pub pinned_cert: Option<Seq<char>>,
    pub supports_components: bool,
}

impl View for ServerEntry {
    type V = EntryModel;

    open spec fn view(&self) -> EntryModel {
        EntryModel {
            address: self.address@,
            client_uuid: self.client_uuid@,
            minecraft_uuid: self.minecraft_uuid@,
            pinned_cert: text::opt_text(self.pinned_cert),
            supports_components: self.supports_components,
        }
    }
}

impl View for ServerConfig {
    type V = Seq<EntryModel>;

    open spec fn view(&self) -> Seq<EntryModel> {
        self.servers@.map_values(|e: ServerEntry| e@)
    }
}

/// Where the first entry for an address stands.
pub open spec fn position(servers: Seq<EntryModel>, address: Seq<char>) -> Option<int>
    decreases servers.len(),
{
    if servers.len() == 0 {
        None
    } else if servers[0].address == address {
        Some(0)
    } else {
        match position(servers.drop_first(), address) {
            Some(i) => Some(i + 1),
            None => None,
        }
    }
}

/// The first entry for an address.
pub open spec fn entry_for(servers: Seq<EntryModel>, address: Seq<char>) -> Option<EntryModel> {
    match position(servers, address) {
        Some(i) => Some(servers[i]),
        None => None,
    }
}

/// The certificate that is pinned for an address.
pub open spec fn pinned_for(servers: Seq<EntryModel>, address: Seq<char>) -> Option<Seq<char>> {
    match entry_for(servers, address) {
        Some(entry) => entry.pinned_cert,
        None => None,
    }
}

/// The entries for all other addresses, in their order.
pub open spec fn others(servers: Seq<EntryModel>, address: Seq<char>) -> Seq<EntryModel> {
    servers.filter(|e: EntryModel| e.address != address)
}

/// The entries once a server has been linked: its new entry takes the place
/// of all that there were for its address, and stands last.
pub open spec fn linked(servers: Seq<EntryModel>, entry: EntryModel) -> Seq<EntryModel> {
    others(servers, entry.address).push(entry)
}

/// The entries once the first entry for an address says that components are
/// supported.
pub open spec fn with_components(servers: Seq<EntryModel>, address: Seq<char>) -> Seq<EntryModel> {
    match position(servers, address) {
        Some(i) => servers.update(i, EntryModel { supports_components: true, ..servers[i] }),
        None => servers,
    }
}

/// The position of an address is the first place at which it stands, and there
/// is none only if it stands nowhere.
pub proof fn law_position_is_first(servers: Seq<EntryModel>, address: Seq<char>)
    ensures
        match position(servers, address) {
            Some(i) => {
                &&& 0 <= i < servers.len()
                &&& servers[i].address == address
                &&& forall|j: int| 0 <= j < i ==> (#[trigger] servers[j]).address != address
            },
            None => forall|j: int|
                0 <= j < servers.len() ==> (#[trigger] servers[j]).address != address,
        },
    decreases servers.len(),
{
    if servers.len() > 0 && servers[0].address != address {
        let rest = servers.drop_first();
        law_position_is_first(rest, address);
        assert forall|j: int| 1 <= j < servers.len() implies #[trigger] servers[j] == rest[j
            - 1] by {}
    }
}

/// A first place determines the position.
proof fn lemma_position_at(servers: Seq<EntryModel>, address: Seq<char>, i: int)
    requires
        0 <= i < servers.len(),
        servers[i].address == address,
        forall|j: int| 0 <= j < i ==> (#[trigger] servers[j]).address != address,
    ensures
        position(servers, address) == Some(i),
{
    law_position_is_first(servers, address);
    match position(servers, address) {
        Some(k) => {
            if k < i {
                assert(servers[k].address != address);
            }
            if i < k {
                assert(servers[i].address != address);
            }
        },
        None => {
            assert(servers[i].address != address);
        },
    }
}

/// The content of an entry is all that the entry holds.
pub proof fn law_entry_content(entry: ServerEntry)
    ensures
        entry@.address == entry.address@,
        entry@.client_uuid == entry.client_uuid@,
        entry@.minecraft_uuid == entry.minecraft_uuid@,
        entry@.supports_components == entry.supports_components,
        match entry.pinned_cert {
            Some(certificate) => entry@.pinned_cert == Some(certificate@),
            None => entry@.pinned_cert is None,
        },
{
}

/// The content of a configuration is that of its entries, each in its place.
pub proof fn law_config_content(config: ServerConfig)
    ensures
        config@.len() == config.servers@.len(),
        forall|i: int|
            0 <= i < config.servers@.len() ==> #[trigger] config@[i] == config.servers@[i]@,
{
}

/// An entry is found for an address exactly if it has that address and none
/// before it has; nothing is found exactly if no entry has it.
pub proof fn law_first_entry_is_found(
    servers: Seq<EntryModel>,
    address: Seq<char>,
    entry: EntryModel,
)
    ensures
        entry_for(servers, address) == Some(entry) <==> exists|i: int|
            {
                &&& 0 <= i < servers.len()
                &&& #[trigger] servers[i] == entry
                &&& entry.address == address
                &&& forall|j: int| 0 <= j < i ==> (#[trigger] servers[j]).address != address
            },
        entry_for(servers, address) is None <==> forall|j: int|
            0 <= j < servers.len() ==> (#[trigger] servers[j]).address != address,
{
    law_position_is_first(servers, address);
    if exists|i: int|
        {
            &&& 0 <= i < servers.len()
            &&& #[trigger] servers[i] == entry
            &&& entry.address == address
            &&& forall|j: int| 0 <= j < i ==> (#[trigger] servers[j]).address != address
        } {
        let i = choose|i: int|
            {
                &&& 0 <= i < servers.len()
                &&& #[trigger] servers[i] == entry
                &&& entry.address == address
                &&& forall|j: int| 0 <= j < i ==> (#[trigger] servers[j]).address != address
            };
        lemma_position_at(servers, address, i);
    }
}

/// No certificate is pinned for an address that no entry has. One that is
/// pinned is that of an entry with exactly this address, and it is that of the
/// first such entry which decides.
pub proof fn law_pinned_certificate_is_of_that_address(
    servers: Seq<EntryModel>,
    address: Seq<char>,
    first: int,
)
    ensures
        (forall|j: int| 0 <= j < servers.len() ==> (#[trigger] servers[j]).address != address)
            ==> pinned_for(servers, address) is None,
        pinned_for(servers, address) matches Some(certificate) ==> exists|i: int|
            {
                &&& 0 <= i < servers.len()
                &&& (#[trigger] servers[i]).address == address
                &&& servers[i].pinned_cert == Some(certificate)
            },
        (0 <= first < servers.len() && servers[first].address == address && forall|j: int|
            0 <= j < first ==> (#[trigger] servers[j]).address != address) ==> pinned_for(
            servers,
            address,
        ) == servers[first].pinned_cert,
{
    law_position_is_first(servers, address);
    if 0 <= first < servers.len() && servers[first].address == address && forall|j: int|
        0 <= j < first ==> (#[trigger] servers[j]).address != address {
        lemma_position_at(servers, address, first);
    }
}

/// What is pinned for an address does not depend on entries for others.
pub proof fn law_other_servers_pin_nothing(
    servers: Seq<EntryModel>,
    other: EntryModel,
    address: Seq<char>,
)
    requires
        other.address != address,
    ensures
        pinned_for(seq![other] + servers, address) == pinned_for(servers, address),
        pinned_for(servers.push(other), address) == pinned_for(servers, address),
{
    lemma_entry_for_push(servers, other, address);
    let longer = seq![other] + servers;
    assert(longer.drop_first() =~= servers);
    law_position_is_first(servers, address);
    assert forall|i: int| 0 <= i < servers.len() implies servers[i] == #[trigger] longer[i
        + 1] by {}
}

/// No entry for an address is left among the others.
proof fn lemma_others(servers: Seq<EntryModel>, address: Seq<char>)
    ensures
        forall|j: int|
            0 <= j < others(servers, address).len() ==> (#[trigger] others(
                servers,
                address,
            )[j]).address != address,
{
    let pred = |e: EntryModel| e.address != address;
    assert forall|j: int| 0 <= j < others(servers, address).len() implies (#[trigger] others(
        servers,
        address,
    )[j]).address != address by {
        servers.lemma_filter_pred(pred, j);
        assert(pred(servers.filter(pred)[j]));
    }
}

/// After linking, the new entry is the only one for its address.
pub proof fn law_link_leaves_one_entry(servers: Seq<EntryModel>, entry: EntryModel)
    ensures
        linked(servers, entry).last() == entry,
        forall|j: int|
            0 <= j < linked(servers, entry).len() - 1 ==> (#[trigger] linked(
                servers,
                entry,
            )[j]).address != entry.address,
{
    lemma_others(servers, entry.address);
    let after = linked(servers, entry);
    assert forall|j: int| 0 <= j < after.len() - 1 implies (#[trigger] after[j]).address
        != entry.address by {
        assert(after[j] == others(servers, entry.address)[j]);
    }
}

/// What was linked last is what is found: the entry for the address of a
/// server that was just linked is the one that linking stored.
pub proof fn law_link_is_found(servers: Seq<EntryModel>, entry: EntryModel)
    ensures
        entry_for(linked(servers, entry), entry.address) == Some(entry),
        pinned_for(linked(servers, entry), entry.address) == entry.pinned_cert,
{
    law_link_leaves_one_entry(servers, entry);
    let after = linked(servers, entry);
    lemma_position_at(after, entry.address, after.len() - 1);
}

/// What an entry at the end means for the search.
proof fn lemma_entry_for_push(servers: Seq<EntryModel>, last: EntryModel, address: Seq<char>)
    ensures
        entry_for(servers.push(last), address) == match entry_for(servers, address) {
            Some(e) => Some(e),
            None => if last.address == address {
                Some(last)
            } else {
                None
            },
        },
{
    let longer = servers.push(last);
    law_position_is_first(servers, address);
    law_position_is_first(longer, address);
    match position(servers, address) {
        Some(i) => {
            assert forall|j: int| 0 <= j < i implies (#[trigger] longer[j]).address != address by {
                assert(longer[j] == servers[j]);
            }
            lemma_position_at(longer, address, i);
        },
        None => {
            assert forall|j: int| 0 <= j < servers.len() implies (#[trigger] longer[j]).address
                != address by {
                assert(longer[j] == servers[j]);
            }
            if last.address == address {
                lemma_position_at(longer, address, servers.len() as int);
            } else if position(longer, address) is Some {
                let k = position(longer, address)->0;
                assert(longer[k].address == address);
            }
        },
    }
}

/// Searching for one address does not see that another was dropped.
proof fn lemma_entry_for_others(
    servers: Seq<EntryModel>,
    dropped: Seq<char>,
    address: Seq<char>,
)
    requires
        address != dropped,
    ensures
        entry_for(others(servers, dropped), address) == entry_for(servers, address),
    decreases servers.len(),
{
    reveal(Seq::filter);
    if servers.len() > 0 {
        let rest = servers.drop_last();
        lemma_entry_for_others(rest, dropped, address);
        lemma_entry_for_push(rest, servers.last(), address);
        assert(rest.push(servers.last()) =~= servers);
        lemma_entry_for_push(others(rest, dropped), servers.last(), address);
    }
}

/// Linking one server leaves what is found for every other address as it was.
pub proof fn law_link_keeps_other_servers(
    servers: Seq<EntryModel>,
    entry: EntryModel,
    address: Seq<char>,
)
    requires
        address != entry.address,
    ensures
        entry_for(linked(servers, entry), address) == entry_for(servers, address),
{
    lemma_entry_for_others(servers, entry.address, address);
    lemma_entry_for_push(others(servers, entry.address), entry, address);
}

/// Linking goes over the entries one by one: each that is for another address
/// stays as it is and where it is among the others, each for the address that
/// was linked goes, and the new one comes last.
pub proof fn law_link_keeps_or_drops_each_entry(
    servers: Seq<EntryModel>,
    next: EntryModel,
    entry: EntryModel,
)
    ensures
        linked(Seq::empty(), entry) == seq![entry],
        next.address == entry.address ==> linked(servers.push(next), entry) == linked(
            servers,
            entry,
        ),
        next.address != entry.address ==> linked(servers.push(next), entry) == linked(
            servers,
            entry,
        ).drop_last().push(next).push(entry),
{
    reveal(Seq::filter);
    assert(servers.push(next).drop_last() =~= servers);
    assert(others(Seq::empty(), entry.address) =~= Seq::<EntryModel>::empty());
    assert(linked(Seq::empty(), entry) =~= seq![entry]);
    assert(linked(servers, entry).drop_last() =~= others(servers, entry.address));
}

/// After linking, the entries are the new one and those that there were for
/// other addresses.
pub proof fn law_link_keeps_entries_of_others(
    servers: Seq<EntryModel>,
    entry: EntryModel,
    e: EntryModel,
)
    ensures
        linked(servers, entry).contains(e) <==> e == entry || (servers.contains(e) && e.address
            != entry.address),
    decreases servers.len(),
{
    if servers.len() == 0 {
        law_link_keeps_or_drops_each_entry(servers, e, entry);
        assert(servers =~= Seq::empty());
        assert(seq![entry][0] == entry);
    } else {
        let rest = servers.drop_last();
        let last = servers.last();
        let before = linked(rest, entry);
        let after = linked(servers, entry);
        law_link_keeps_entries_of_others(rest, entry, e);
        law_link_keeps_or_drops_each_entry(rest, last, entry);
        law_link_leaves_one_entry(rest, entry);
        assert(rest.push(last) =~= servers);
        assert forall|i: int| 0 <= i < rest.len() implies #[trigger] rest[i] == servers[i] by {}
        assert(servers[servers.len() - 1] == last);
        if last.address != entry.address {
            assert(after[after.len() - 1] == entry);
            assert(after[after.len() - 2] == last);
            assert forall|i: int| 0 <= i < before.len() - 1 implies #[trigger] before[i]
                == after[i] by {}
            assert(before[before.len() - 1] == entry);
            if after.contains(e) {
                let k = choose|k: int| 0 <= k < after.len() && after[k] == e;
                if k < before.len() - 1 {
                    assert(before[k] == e);
                }
            }
            if before.contains(e) {
                let k = choose|k: int| 0 <= k < before.len() && before[k] == e;
                if k < before.len() - 1 {
                    assert(after[k] == e);
                }
            }
        }
        if servers.contains(e) && !rest.contains(e) {
            let k = choose|k: int| 0 <= k < servers.len() && servers[k] == e;
            if k < rest.len() {
                assert(rest[k] == e);
            }
        }
    }
}

/// Dropping an address twice drops no more than dropping it once.
proof fn lemma_others_twice(servers: Seq<EntryModel>, address: Seq<char>)
    ensures
        others(others(servers, address), address) == others(servers, address),
    decreases servers.len(),
{
    reveal(Seq::filter);
    if servers.len() > 0 {
        let rest = servers.drop_last();
        lemma_others_twice(rest, address);
        if servers.last().address != address {
            let kept = others(rest, address);
            assert(kept.push(servers.last()).drop_last() =~= kept);
        }
    }
}

/// Linking a server again leaves what linking it the second time alone would.
pub proof fn law_link_again_replaces(
    servers: Seq<EntryModel>,
    first: EntryModel,
    second: EntryModel,
)
    requires
        first.address == second.address,
    ensures
        linked(linked(servers, first), second) == linked(servers, second),
{
    reveal(Seq::filter);
    let kept = others(servers, first.address);
    lemma_others_twice(servers, first.address);
    assert(kept.push(first).drop_last() =~= kept);
}

/// No two entries are for the same address.
pub open spec fn distinct_addresses(servers: Seq<EntryModel>) -> bool {
    forall|i: int, j: int|
        0 <= i < j < servers.len() ==> (#[trigger] servers[i]).address != (
        #[trigger] servers[j]).address
}

/// How many entries there are for an address.
pub open spec fn times_stored(servers: Seq<EntryModel>, address: Seq<char>) -> nat {
    servers.filter(|e: EntryModel| e.address == address).len()
}

/// One entry more at the end keeps addresses distinct if its own is new.
proof fn lemma_distinct_push(servers: Seq<EntryModel>, last: EntryModel)
    requires
        distinct_addresses(servers),
        forall|j: int| 0 <= j < servers.len() ==> (#[trigger] servers[j]).address != last.address,
    ensures
        distinct_addresses(servers.push(last)),
{
    let longer = servers.push(last);
    assert forall|i: int, j: int| 0 <= i < j < longer.len() implies (#[trigger] longer[i]).address
        != (#[trigger] longer[j]).address by {
        assert(longer[i] == servers[i]);
        if j < servers.len() {
            assert(longer[j] == servers[j]);
        }
    }
}

/// Dropping the last entry keeps addresses distinct.
proof fn lemma_distinct_drop_last(servers: Seq<EntryModel>)
    requires
        servers.len() > 0,
        distinct_addresses(servers),
    ensures
        distinct_addresses(servers.drop_last()),
{
    let rest = servers.drop_last();
    assert forall|i: int, j: int| 0 <= i < j < rest.len() implies (#[trigger] rest[i]).address != (
    #[trigger] rest[j]).address by {
        assert(rest[i] == servers[i] && rest[j] == servers[j]);
    }
}

/// Dropping an address keeps the rest distinct.
proof fn lemma_others_distinct(servers: Seq<EntryModel>, address: Seq<char>)
    requires
        distinct_addresses(servers),
    ensures
        distinct_addresses(others(servers, address)),
    decreases servers.len(),
{
    reveal(Seq::filter);
    if servers.len() > 0 {
        let rest = servers.drop_last();
        let last = servers.last();
        let pred = |e: EntryModel| e.address != address;
        lemma_distinct_drop_last(servers);
        lemma_others_distinct(rest, address);
        if last.address != address {
            let kept = others(rest, address);
            assert forall|j: int| 0 <= j < kept.len() implies (#[trigger] kept[j]).address
                != last.address by {
                assert(kept.contains(kept[j]));
                rest.lemma_filter_contains_rev(pred, kept[j]);
                let k = choose|k: int| 0 <= k < rest.len() && rest[k] == kept[j];
                assert(servers[k] == rest[k]);
                assert(servers[servers.len() - 1] == last);
            }
            lemma_distinct_push(kept, last);
        }
    }
}

/// Linking keeps addresses distinct, so a configuration that is only ever
/// changed by linking holds one entry for each address.
pub proof fn law_link_keeps_addresses_distinct(servers: Seq<EntryModel>, entry: EntryModel)
    requires
        distinct_addresses(servers),
    ensures
        distinct_addresses(linked(servers, entry)),
{
    lemma_others_distinct(servers, entry.address);
    lemma_others(servers, entry.address);
    lemma_distinct_push(others(servers, entry.address), entry);
}

/// Every entry is either for an address or among the others.
proof fn lemma_others_len(servers: Seq<EntryModel>, address: Seq<char>)
    ensures
        others(servers, address).len() + times_stored(servers, address) == servers.len(),
    decreases servers.len(),
{
    reveal(Seq::filter);
    if servers.len() > 0 {
        lemma_others_len(servers.drop_last(), address);
    }
}

/// Linking takes away as many entries as there were for the address and adds
/// one: a new server makes one entry more, and linking a server again that
/// stands once leaves their number unchanged.
pub proof fn law_link_counts(servers: Seq<EntryModel>, entry: EntryModel)
    ensures
        linked(servers, entry).len() == servers.len() - times_stored(servers, entry.address) + 1,
        times_stored(servers, entry.address) == 0 ==> linked(servers, entry).len() == servers.len()
            + 1,
        times_stored(servers, entry.address) == 1 ==> linked(servers, entry).len()
            == servers.len(),
        times_stored(linked(servers, entry), entry.address) == 1,
{
    lemma_others_len(servers, entry.address);
    lemma_others_len(linked(servers, entry), entry.address);
    lemma_others_twice(servers, entry.address);
    reveal(Seq::filter);
    assert(linked(servers, entry).drop_last() =~= others(servers, entry.address));
}

/// Where addresses are distinct, one stands once if it is found and not at all
/// if it is not.
pub proof fn law_distinct_addresses_stand_once(servers: Seq<EntryModel>, address: Seq<char>)
    requires
        distinct_addresses(servers),
    ensures
        times_stored(servers, address) == if position(servers, address) is Some {
            1nat
        } else {
            0
        },
    decreases servers.len(),
{
    reveal(Seq::filter);
    law_position_is_first(servers, address);
    if servers.len() > 0 {
        let rest = servers.drop_last();
        lemma_distinct_drop_last(servers);
        law_distinct_addresses_stand_once(rest, address);
        law_position_is_first(rest, address);
        match position(rest, address) {
            Some(k) => {
                assert(servers[k] == rest[k]);
                assert(servers[k].address != servers[servers.len() - 1].address);
            },
            None => {
                match position(servers, address) {
                    Some(k) => {
                        if k < rest.len() {
                            assert(rest[k] == servers[k]);
                        }
                    },
                    None => {
                        assert(servers[servers.len() - 1].address != address);
                    },
                }
            },
        }
    }
}

/// Noting that components are supported keeps addresses distinct.
pub proof fn law_components_keep_addresses_distinct(
    servers: Seq<EntryModel>,
    address: Seq<char>,
)
    requires
        distinct_addresses(servers),
    ensures
        distinct_addresses(with_components(servers, address)),
{
    law_components_keep_entries(servers, address);
    let after = with_components(servers, address);
    assert forall|i: int, j: int| 0 <= i < j < after.len() implies (#[trigger] after[i]).address
        != (#[trigger] after[j]).address by {
        assert(after[i].address == servers[i].address);
        assert(after[j].address == servers[j].address);
    }
}

/// Noting that components are supported changes nothing else: every entry
/// keeps its place, its address, its identities and its certificate.
pub proof fn law_components_keep_entries(servers: Seq<EntryModel>, address: Seq<char>)
    ensures
        with_components(servers, address).len() == servers.len(),
        forall|j: int|
            0 <= j < servers.len() ==> {
                let after = #[trigger] with_components(servers, address)[j];
                &&& after.address == servers[j].address
                &&& after.client_uuid == servers[j].client_uuid
                &&& after.minecraft_uuid == servers[j].minecraft_uuid
                &&& after.pinned_cert == servers[j].pinned_cert
                &&& after.supports_components == (servers[j].supports_components || Some(j)
                    == position(servers, address))
            },
{
    law_position_is_first(servers, address);
}

/// Noting for one address that components are supported leaves every address
/// where it was found before.
pub proof fn law_components_keep_positions(
    servers: Seq<EntryModel>,
    noted: Seq<char>,
    address: Seq<char>,
)
    ensures
        position(with_components(servers, noted), address) == position(servers, address),
{
    let after = with_components(servers, noted);
    law_components_keep_entries(servers, noted);
    law_position_is_first(servers, address);
    law_position_is_first(after, address);
    match position(servers, address) {
        Some(i) => {
            assert forall|j: int| 0 <= j < i implies (#[trigger] after[j]).address != address by {
                assert(servers[j].address != address);
            }
            lemma_position_at(after, address, i);
        },
        None => {
            if position(after, address) is Some {
                let k = position(after, address)->0;
                assert(after[k].address == servers[k].address);
            }
        },
    }
}

impl Clone for ServerEntry {
    fn clone(&self) -> (copy: Self)
        ensures
            copy@ == self@,
    {
        ServerEntry {
            address: self.address.clone(),
            client_uuid: self.client_uuid.clone(),
            minecraft_uuid: self.minecraft_uuid.clone(),
            pinned_cert: text::copy_opt(&self.pinned_cert),
            supports_components: self.supports_components,
        }
    }
}

impl ServerConfig {
    /// A configuration without servers, as it is before the first link.
    pub fn new() -> (config: ServerConfig)
        ensures
            config@ == Seq::<EntryModel>::empty(),
    {
        let config = ServerConfig { servers: Vec::new() };
        assert(config@ =~= Seq::<EntryModel>::empty());
        config
    }

    /// Where the first entry for an address stands.
    fn index_of(&self, address: &str) -> (r: Option<usize>)
        ensures
            match r {
                Some(i) => position(self@, address@) == Some(i as int) && i < self@.len(),
                None => position(self@, address@) is None,
            },
    {
        for i in 0..self.servers.len()
            invariant
                forall|j: int| 0 <= j < i ==> (#[trigger] self@[j]).address != address@,
        {
            assert(self@[i as int] == self.servers@[i as int]@);
            if text::same_text(self.servers[i].address.as_str(), address) {
                proof {
                    lemma_position_at(self@, address@, i as int);
                }
                return Some(i);
            }
        }
        proof {
            law_position_is_first(self@, address@);
        }
        None
    }

    /// Looks up the first entry for an address.
    pub fn find(&self, address: &str) -> (r: Option<&ServerEntry>)
        ensures
            match r {
                Some(entry) => entry_for(self@, address@) == Some(entry@),
                None => entry_for(self@, address@) is None,
            },
    {
        match self.index_of(address) {
            Some(i) => {
                assert(self@[i as int] == self.servers@[i as int]@);
                Some(&self.servers[i])
            },
            None => None,
        }
    }

    /// The certificate that is pinned for an address.
    pub fn pinned_cert(&self, address: &str) -> (r: Option<String>)
        ensures
            text::opt_text(r) == pinned_for(self@, address@),
    {
        match self.find(address) {
            Some(entry) => text::copy_opt(&entry.pinned_cert),
            None => None,
        }
    }

    /// Stores the entry of a server that was just linked, in place of all
    /// entries that there were for its address.
    pub fn record_link(&mut self, entry: ServerEntry)
        ensures
            final(self)@ == linked(old(self)@, entry@),
    {
        let ghost before = self@;
        let ghost keep = |e: EntryModel| e.address != entry@.address;
        let ghost mut seen: int = 0;
        let mut i: usize = 0;
        assert(before.take(0).filter(keep) =~= Seq::<EntryModel>::empty()) by {
            reveal(Seq::filter);
        }
        assert(self@ =~= before.take(0).filter(keep) + before.skip(0));
        while i < self.servers.len()
            invariant
                keep == (|e: EntryModel| e.address != entry@.address),
                0 <= seen <= before.len(),
                i == before.take(seen).filter(keep).len(),
                self@ == before.take(seen).filter(keep) + before.skip(seen),
            decreases self.servers.len() - i,
        {
            let ghost kept = before.take(seen).filter(keep);
            let ghost now = self@;
            assert(now.len() == kept.len() + before.len() - seen);
            assert(now[i as int] == before[seen]);
            assert(now[i as int] == self.servers@[i as int]@);
            proof {
                reveal(Seq::filter);
                assert(before.take(seen + 1).drop_last() =~= before.take(seen));
                assert(before.take(seen + 1).last() == before[seen]);
            }
            if text::same_text(self.servers[i].address.as_str(), entry.address.as_str()) {
                self.servers.remove(i);
                assert(self@ =~= now.remove(i as int));
                assert(self@ =~= kept + before.skip(seen + 1));
            } else {
                i = i + 1;
                assert(self@ =~= kept.push(before[seen]) + before.skip(seen + 1));
            }
            proof {
                seen = seen + 1;
            }
        }
        assert(seen == before.len());
        assert(before.take(seen) =~= before);
        assert(self@ =~= others(before, entry@.address));
        let ghost kept = self@;
        self.servers.push(entry);
        assert(self@ =~= kept.push(entry@));
    }

    /// Notes in the first entry for an address that components are supported,
    /// and says whether there is such an entry.
    pub fn note_components(&mut self, address: &str) -> (found: bool)
        ensures
            found == (position(old(self)@, address@) is Some),
            final(self)@ == with_components(old(self)@, address@),
    {
        let ghost before = self@;
        match self.index_of(address) {
            Some(i) => {
                assert(before[i as int] == self.servers@[i as int]@);
                self.servers[i].supports_components = true;
                assert(self@ =~= with_components(before, address@));
                true
            },
            None => false,
        }
    }
}

} // verus!
