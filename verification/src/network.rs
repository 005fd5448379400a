//! Network interfaces and their IPv4 addresses, from the address records that the
//! operating system reports.

use crate::text;
use vstd::prelude::*;
use vstd::string::*;

verus! {

/// An IPv4 address, most significant octet first.
#[derive(Clone, Copy, Debug, PartialEq, Eq, Structural)]
pub struct Ipv4 {
    pub a: u8,
    pub b: u8,
    pub c: u8,
    pub d: u8,
}

impl Ipv4 {
    /// The address in dotted decimal.
    pub open spec fn dotted(self) -> Seq<char> {
        text::decimal(self.a as nat) + "."@ + text::decimal(self.b as nat) + "."@ + text::decimal(
            self.c as nat,
        ) + "."@ + text::decimal(self.d as nat)
    }

    /// Writes the address in dotted decimal.
    pub fn to_text(&self) -> (r: String)
        ensures
            r@ == self.dotted(),
    {
        text::decimal_text(self.a as u32).concat(".").concat(
            text::decimal_text(self.b as u32).as_str(),
        ).concat(".").concat(text::decimal_text(self.c as u32).as_str()).concat(".").concat(
            text::decimal_text(self.d as u32).as_str(),
        )
    }
}

/// One address record: an interface's name, the address where it is an IPv4 one, and whether
/// the interface is flagged as a loopback one. An interface has a record for each of its
/// addresses.
#[derive(Debug, PartialEq)]
pub struct InterfaceAddress {
    pub name: String,
    pub ip: Option<Ipv4>,
    pub loopback: bool,
}

/// An [`InterfaceAddress`] with its name as a sequence of characters.
pub struct Record {
    pub name: Seq<char>,
    pub ip: Option<Ipv4>,
    pub loopback: bool,
}

impl View for InterfaceAddress {
    type V = Record;

    open spec fn view(&self) -> Record {
        Record { name: self.name@, ip: self.ip, loopback: self.loopback }
    }
}

/// A network interface with its IPv4 address, if it has one.
#[derive(Clone, Debug, PartialEq)]
pub struct NetworkInterface {
    pub name: String,
    pub ip: Option<Ipv4>,
}

/// The records in turn; none where they could not be had.
pub open spec fn records(addrs: Option<Vec<InterfaceAddress>>) -> Seq<Record> {
    match addrs {
        Some(v) => v@.map_values(|a: InterfaceAddress| a@),
        None => Seq::empty(),
    }
}

/// The first IPv4 address that is recorded under `name`.
pub open spec fn first_ip(recs: Seq<Record>, name: Seq<char>) -> Option<Ipv4>
    decreases recs.len(),
{
    if recs.len() == 0 {
        None
    } else if recs[0].name == name && recs[0].ip is Some {
        recs[0].ip
    } else {
        first_ip(recs.drop_first(), name)
    }
}

/// The last IPv4 address that is recorded under `name`.
pub open spec fn last_ip(recs: Seq<Record>, name: Seq<char>) -> Option<Ipv4>
    decreases recs.len(),
{
    if recs.len() == 0 {
        None
    } else if recs.last().name == name && recs.last().ip is Some {
        recs.last().ip
    } else {
        last_ip(recs.drop_last(), name)
    }
}

/// Whether `name` is a loopback interface: by its name, or by the flag of one of its records.
pub open spec fn loopback(recs: Seq<Record>, name: Seq<char>) -> bool {
    name == "lo"@ || exists|i: int|
        0 <= i < recs.len() && (#[trigger] recs[i]).name == name && recs[i].loopback
}

/// Whether `name` is recorded and is not a loopback interface.
pub open spec fn listed(recs: Seq<Record>, name: Seq<char>) -> bool {
    !loopback(recs, name) && exists|i: int|
        0 <= i < recs.len() && (#[trigger] recs[i]).name == name
}

/// Whether `list` names each recorded interface but the loopback ones, once and in dictionary
/// order, each with the last IPv4 address that is recorded under its name.
pub open spec fn lists(list: Seq<NetworkInterface>, recs: Seq<Record>) -> bool {
    &&& forall|i: int, j: int|
        0 <= i < j < list.len() ==> text::before(
            (#[trigger] list[i]).name@,
            (#[trigger] list[j]).name@,
        )
    &&& forall|i: int| 0 <= i < list.len() ==> listed(recs, (#[trigger] list[i]).name@)
    &&& forall|name: Seq<char>| #[trigger]
        listed(recs, name) ==> exists|i: int|
            0 <= i < list.len() && (#[trigger] list[i]).name@ == name
    &&& forall|i: int| 0 <= i < list.len() ==> (#[trigger] list[i]).ip == last_ip(recs, list[i].name@)
}

/// Whether `list` is as [`lists`] says for the records `part` of all the records `all`: which
/// interfaces are loopback ones is told by all of them.
spec fn lists_part(list: Seq<NetworkInterface>, part: Seq<Record>, all: Seq<Record>) -> bool {
    &&& forall|i: int, j: int|
        0 <= i < j < list.len() ==> text::before(
            (#[trigger] list[i]).name@,
            (#[trigger] list[j]).name@,
        )
    &&& forall|i: int|
        0 <= i < list.len() ==> recorded(part, (#[trigger] list[i]).name@) && !loopback(
            all,
            list[i].name@,
        )
    &&& forall|k: int|
        0 <= k < part.len() && !loopback(all, (#[trigger] part[k]).name) ==> exists|i: int|
            0 <= i < list.len() && (#[trigger] list[i]).name@ == part[k].name
    &&& forall|i: int| 0 <= i < list.len() ==> (#[trigger] list[i]).ip == last_ip(part, list[i].name@)
}

/// Whether `name` is recorded.
spec fn recorded(recs: Seq<Record>, name: Seq<char>) -> bool {
    exists|i: int| 0 <= i < recs.len() && (#[trigger] recs[i]).name == name
}

/// An interface in words: its name, and its address or "no IPv4".
pub open spec fn interface_label(name: Seq<char>, ip: Option<Ipv4>) -> Seq<char> {
    match ip {
        Some(ip) => name + " ("@ + ip.dotted() + ")"@,
        None => name + " (no IPv4)"@,
    }
}

/// The name and the address of each interface in turn.
pub open spec fn interfaces_view(
    list: Seq<NetworkInterface>,
) -> Seq<(Seq<char>, Option<Ipv4>)> {
    list.map_values(|i: NetworkInterface| (i.name@, i.ip))
}

impl NetworkInterface {
    /// Describes the interface in words.
    pub fn label(&self) -> (r: String)
        ensures
            r@ == interface_label(self.name@, self.ip),
    {
        match &self.ip {
            Some(ip) => self.name.clone().concat(" (").concat(ip.to_text().as_str()).concat(")"),
            None => self.name.clone().concat(" (no IPv4)"),
        }
    }
}

/// One more record changes the address of its own interface alone, and only if it has one.
proof fn lemma_last_ip_push(
    recs: Seq<Record>,
    rec: Record,
    name: Seq<char>,
)
    ensures
        last_ip(recs.push(rec), name) == (if rec.name == name && rec.ip is Some {
            rec.ip
        } else {
            last_ip(recs, name)
        }),
{
    assert(recs.push(rec).drop_last() =~= recs);
}

proof fn lemma_last_ip_unlisted(recs: Seq<Record>, name: Seq<char>)
    requires
        forall|k: int| 0 <= k < recs.len() ==> (#[trigger] recs[k]).name != name,
    ensures
        last_ip(recs, name) is None,
    decreases recs.len(),
{
    if recs.len() > 0 {
        assert(recs[recs.len() - 1].name != name);
        assert forall|k: int| 0 <= k < recs.drop_last().len() implies (
        #[trigger] recs.drop_last()[k]).name != name by {
            assert(recs[k].name != name);
        }
        lemma_last_ip_unlisted(recs.drop_last(), name);
    }
}

/// The position of `name` in a list in dictionary order: of the first entry that does not
/// stand before it.
fn position(list: &Vec<NetworkInterface>, name: &str) -> (r: usize)
    ensures
        r <= list@.len(),
        forall|i: int| 0 <= i < r ==> text::before((#[trigger] list@[i]).name@, name@),
        r < list@.len() ==> !text::before(list@[r as int].name@, name@),
{
    let mut p: usize = 0;
    while p < list.len() && text::text_before(list[p].name.as_str(), name)
        invariant
            p <= list@.len(),
            forall|i: int| 0 <= i < p ==> text::before((#[trigger] list@[i]).name@, name@),
        decreases list@.len() - p,
    {
        p = p + 1;
    }
    p
}

/// Whether `name` is a loopback interface.
fn is_loopback(addrs: &Vec<InterfaceAddress>, name: &str) -> (r: bool)
    ensures
        r == loopback(addrs@.map_values(|a: InterfaceAddress| a@), name@),
{
    let ghost recs = addrs@.map_values(|a: InterfaceAddress| a@);
    if text::same_text(name, "lo") {
        return true;
    }
    let mut i: usize = 0;
    while i < addrs.len()
        invariant
            i <= addrs@.len(),
            recs == addrs@.map_values(|a: InterfaceAddress| a@),
            forall|k: int| 0 <= k < i ==> !((#[trigger] recs[k]).name == name@ && recs[k].loopback),
        decreases addrs@.len() - i,
    {
        assert(recs[i as int] == addrs@[i as int]@);
        if addrs[i].loopback && text::same_text(addrs[i].name.as_str(), name) {
            return true;
        }
        i = i + 1;
    }
    false
}

/// Enters one record into the list of the records before it, unless it is of a loopback
/// interface.
fn enter(
    list: &mut Vec<NetworkInterface>,
    rec: &InterfaceAddress,
    left_out: bool,
    Ghost(recs): Ghost<Seq<Record>>,
    Ghost(all): Ghost<Seq<Record>>,
)
    requires
        lists_part(old(list)@, recs, all),
        left_out == loopback(all, rec.name@),
    ensures
        lists_part(final(list)@, recs.push(rec@), all),
{
    let ghost before_list = list@;
    let ghost more = recs.push(rec@);
    let ghost name = rec.name@;
    proof {
        assert forall|n: Seq<char>| last_ip(more, n) == (if name == n && rec.ip is Some {
            rec.ip
        } else {
            last_ip(recs, n)
        }) by {
            lemma_last_ip_push(recs, rec@, n);
        }
        assert forall|n: Seq<char>| recorded(recs, n) implies recorded(more, n) by {
            let k = choose|k: int| 0 <= k < recs.len() && (#[trigger] recs[k]).name == n;
            assert(more[k].name == n);
        }
        assert forall|k: int| 0 <= k < recs.len() implies more[k] == #[trigger] recs[k] by {}
        assert(more[recs.len() as int] == rec@);
    }
    if left_out {
        proof {
            assert forall|i: int| 0 <= i < list@.len() implies (#[trigger] list@[i]).ip == last_ip(
                more,
                list@[i].name@,
            ) by {
                assert(!loopback(all, list@[i].name@));
            }
            assert forall|k: int|
                0 <= k < more.len() && !loopback(all, (#[trigger] more[k]).name) implies exists|i: int|
                0 <= i < list@.len() && (#[trigger] list@[i]).name@ == more[k].name by {
                assert(!loopback(all, recs[k].name));
            }
        }
        return;
    }
    let p: usize = position(list, rec.name.as_str());
    assert(recorded(more, name)) by {
        assert(more[recs.len() as int].name == name);
    }
    if p < list.len() && text::same_text(list[p].name.as_str(), rec.name.as_str()) {
        if rec.ip.is_some() {
            let entry = NetworkInterface { name: rec.name.clone(), ip: rec.ip };
            list.set(p, entry);
        }
        proof {
            assert forall|i: int| 0 <= i < list@.len() implies (#[trigger] list@[i]).name@
                == before_list[i].name@ && list@[i].ip == last_ip(more, list@[i].name@) by {
                if i < p {
                    text::before_total(before_list[i].name@, name);
                } else if i > p {
                    assert(text::before(before_list[p as int].name@, before_list[i].name@));
                    text::before_total(before_list[i].name@, name);
                }
            }
            assert forall|k: int|
                0 <= k < more.len() && !loopback(all, (#[trigger] more[k]).name) implies exists|i: int|
                0 <= i < list@.len() && (#[trigger] list@[i]).name@ == more[k].name by {
                if k < recs.len() {
                    assert(!loopback(all, recs[k].name));
                    let i = choose|i: int|
                        0 <= i < before_list.len() && (#[trigger] before_list[i]).name@ == recs[k].name;
                    assert(list@[i].name@ == more[k].name);
                } else {
                    assert(list@[p as int].name@ == more[k].name);
                }
            }
            assert forall|i: int, j: int| 0 <= i < j < list@.len() implies text::before(
                (#[trigger] list@[i]).name@,
                (#[trigger] list@[j]).name@,
            ) by {
                assert(text::before(before_list[i].name@, before_list[j].name@));
            }
        }
    } else {
        let entry = NetworkInterface { name: rec.name.clone(), ip: rec.ip };
        list.insert(p, entry);
        proof {
            assert forall|i: int| p <= i < before_list.len() implies text::before(
                name,
                (#[trigger] before_list[i]).name@,
            ) by {
                text::before_total(before_list[p as int].name@, name);
                if i > p {
                    assert(text::before(before_list[p as int].name@, before_list[i].name@));
                    text::before_transitive(name, before_list[p as int].name@, before_list[i].name@);
                }
            }
            assert forall|i: int| 0 <= i < before_list.len() implies (
            #[trigger] before_list[i]).name@ != name by {
                text::before_total(before_list[i].name@, name);
            }
            assert forall|k: int| 0 <= k < recs.len() implies (#[trigger] recs[k]).name != name by {
                if recs[k].name == name {
                    assert(exists|i: int|
                        0 <= i < before_list.len() && (#[trigger] before_list[i]).name@
                            == recs[k].name);
                }
            }
            lemma_last_ip_unlisted(recs, name);
            assert forall|i: int| 0 <= i < list@.len() implies #[trigger] list@[i] == (if i < p {
                before_list[i]
            } else if i == p {
                entry
            } else {
                before_list[i - 1]
            }) by {}
            assert forall|i: int, j: int| 0 <= i < j < list@.len() implies text::before(
                (#[trigger] list@[i]).name@,
                (#[trigger] list@[j]).name@,
            ) by {
                let x = if i < p { i } else { i - 1 };
                let y = if j < p { j } else { j - 1 };
                if i != p && j != p {
                    assert(text::before(before_list[x].name@, before_list[y].name@));
                }
            }
            assert forall|k: int|
                0 <= k < more.len() && !loopback(all, (#[trigger] more[k]).name) implies exists|i: int|
                0 <= i < list@.len() && (#[trigger] list@[i]).name@ == more[k].name by {
                if k < recs.len() {
                    assert(!loopback(all, recs[k].name));
                    let i = choose|i: int|
                        0 <= i < before_list.len() && (#[trigger] before_list[i]).name@ == recs[k].name;
                    let x = if i < p { i } else { i + 1 };
                    assert(list@[x].name@ == more[k].name);
                } else {
                    assert(list@[p as int].name@ == more[k].name);
                }
            }
        }
    }
}

/// Lists all network interfaces but the loopback ones with their IPv4 addresses.
pub fn list_interfaces(addrs: &Option<Vec<InterfaceAddress>>) -> (r: Vec<NetworkInterface>)
    ensures
        lists(r@, records(*addrs)),
{
    let mut list: Vec<NetworkInterface> = Vec::new();
    if let Some(v) = addrs {
        let ghost recs = records(*addrs);
        let mut i: usize = 0;
        while i < v.len()
            invariant
                i <= v@.len(),
                recs == v@.map_values(|a: InterfaceAddress| a@),
                lists_part(list@, recs.take(i as int), recs),
            decreases v@.len() - i,
        {
            let left_out = is_loopback(v, v[i].name.as_str());
            enter(&mut list, &v[i], left_out, Ghost(recs.take(i as int)), Ghost(recs));
            assert(recs.take(i as int).push(v@[i as int]@) =~= recs.take(i + 1));
            i = i + 1;
        }
        assert(recs.take(i as int) =~= recs);
    }
    list
}

/// The IPv4 address of a named interface: the first that is recorded for it.
pub fn interface_ip(addrs: &Option<Vec<InterfaceAddress>>, name: &str) -> (r: Option<Ipv4>)
    ensures
        r == first_ip(records(*addrs), name@),
{
    if let Some(v) = addrs {
        let ghost recs = records(*addrs);
        let mut i: usize = 0;
        assert(recs.skip(0) =~= recs);
        while i < v.len()
            invariant
                i <= v@.len(),
                recs == v@.map_values(|a: InterfaceAddress| a@),
                recs == records(*addrs),
                first_ip(recs, name@) == first_ip(recs.skip(i as int), name@),
            decreases v@.len() - i,
        {
            assert(recs.skip(i as int)[0] == v@[i as int]@);
            if text::same_text(v[i].name.as_str(), name) {
                if v[i].ip.is_some() {
                    return v[i].ip;
                }
            }
            assert(recs.skip(i as int).drop_first() =~= recs.skip(i + 1));
            i = i + 1;
        }
    }
    None
}

// ---------------------------------------------------------------------------
// The two views of an interface agree
// ---------------------------------------------------------------------------

/// An address is found for a name exactly when some record under that name has one.
proof fn lemma_ips_exist(recs: Seq<Record>, name: Seq<char>)
    ensures
        first_ip(recs, name) is Some <==> exists|k: int|
            0 <= k < recs.len() && (#[trigger] recs[k]).name == name && recs[k].ip is Some,
        last_ip(recs, name) is Some <==> exists|k: int|
            0 <= k < recs.len() && (#[trigger] recs[k]).name == name && recs[k].ip is Some,
        first_ip(recs, name) is Some ==> exists|k: int|
            0 <= k < recs.len() && (#[trigger] recs[k]).name == name && recs[k].ip == first_ip(recs, name),
        last_ip(recs, name) is Some ==> exists|k: int|
            0 <= k < recs.len() && (#[trigger] recs[k]).name == name && recs[k].ip == last_ip(recs, name),
    decreases recs.len(),
{
    if recs.len() > 0 {
        let tail = recs.drop_first();
        let front = recs.drop_last();
        lemma_ips_exist(tail, name);
        lemma_ips_exist(front, name);
        assert forall|k: int| 0 <= k < tail.len() implies #[trigger] tail[k] == recs[k + 1] by {}
        assert forall|k: int| 0 <= k < front.len() implies #[trigger] front[k] == recs[k] by {}
        if recs[0].name == name && recs[0].ip is Some {
            assert(recs[0].name == name && recs[0].ip == first_ip(recs, name));
        } else {
            if first_ip(recs, name) is Some {
                let k = choose|k: int|
                    0 <= k < tail.len() && (#[trigger] tail[k]).name == name && tail[k].ip == first_ip(tail, name);
                assert(recs[k + 1].name == name && recs[k + 1].ip == first_ip(recs, name));
            } else {
                assert forall|k: int| 0 <= k < recs.len() implies !((#[trigger] recs[k]).name == name
                    && recs[k].ip is Some) by {
                    if k > 0 {
                        assert(tail[k - 1] == recs[k]);
                    }
                }
            }
        }
        let e = recs.len() - 1;
        if recs.last().name == name && recs.last().ip is Some {
            assert(recs[e].name == name && recs[e].ip == last_ip(recs, name));
        } else {
            if last_ip(recs, name) is Some {
                let k = choose|k: int|
                    0 <= k < front.len() && (#[trigger] front[k]).name == name && front[k].ip == last_ip(front, name);
                assert(recs[k].name == name && recs[k].ip == last_ip(recs, name));
            } else {
                assert forall|k: int| 0 <= k < recs.len() implies !((#[trigger] recs[k]).name == name
                    && recs[k].ip is Some) by {
                    if k < e {
                        assert(front[k] == recs[k]);
                    }
                }
            }
        }
    }
}

/// The list names exactly the recorded interfaces that are not loopback ones, whether or not
/// they have an address.
pub proof fn list_is_complete(list: Seq<NetworkInterface>, recs: Seq<Record>, name: Seq<char>)
    requires
        lists(list, recs),
    ensures
        listed(recs, name) <==> exists|i: int|
            0 <= i < list.len() && (#[trigger] list[i]).name@ == name,
        loopback(recs, name) ==> forall|i: int|
            0 <= i < list.len() ==> (#[trigger] list[i]).name@ != name,
{
}

/// A listed interface shows an address exactly when one can be found by its name.
pub proof fn listed_address_can_be_found(
    list: Seq<NetworkInterface>,
    recs: Seq<Record>,
    i: int,
)
    requires
        lists(list, recs),
        0 <= i < list.len(),
    ensures
        list[i].ip is Some <==> first_ip(recs, list[i].name@) is Some,
{
    lemma_ips_exist(recs, list[i].name@);
}

/// Where an interface has a single IPv4 address, the list and the search by name agree on it.
pub proof fn single_address_is_agreed_on(recs: Seq<Record>, name: Seq<char>)
    requires
        forall|j: int, k: int|
            0 <= j < recs.len() && 0 <= k < recs.len() && (#[trigger] recs[j]).name == name && (
            #[trigger] recs[k]).name == name && recs[j].ip is Some && recs[k].ip is Some ==> recs[j].ip
                == recs[k].ip,
    ensures
        first_ip(recs, name) == last_ip(recs, name),
{
    lemma_ips_exist(recs, name);
}

/// The list that the records determine is unique: two lists of the same records show the same
/// interfaces with the same addresses, in the same order.
pub proof fn list_is_determined(
    xs: Seq<NetworkInterface>,
    ys: Seq<NetworkInterface>,
    recs: Seq<Record>,
)
    requires
        lists(xs, recs),
        lists(ys, recs),
    ensures
        xs.len() == ys.len(),
        forall|i: int|
            0 <= i < xs.len() ==> (#[trigger] xs[i]).name@ == ys[i].name@ && xs[i].ip == ys[i].ip,
{
    lemma_prefix_determined(xs, ys, recs, xs.len());
    lemma_prefix_determined(ys, xs, recs, ys.len());
}

/// The first `n` entries of `xs` stand in `ys` at the same places.
proof fn lemma_prefix_determined(
    xs: Seq<NetworkInterface>,
    ys: Seq<NetworkInterface>,
    recs: Seq<Record>,
    n: nat,
)
    requires
        lists(xs, recs),
        lists(ys, recs),
        n <= xs.len(),
    ensures
        n <= ys.len(),
        forall|i: int| 0 <= i < n ==> (#[trigger] xs[i]).name@ == ys[i].name@,
    decreases n,
{
    if n > 0 {
        let m = (n - 1) as int;
        lemma_prefix_determined(xs, ys, recs, m as nat);
        // The name at `m` of each list occurs in the other, not before `m`, hence at `m`.
        assert(listed(recs, xs[m].name@));
        let q = choose|q: int| 0 <= q < ys.len() && (#[trigger] ys[q]).name@ == xs[m].name@;
        if q < m {
            text::before_total(xs[q].name@, xs[m].name@);
        }
        assert(listed(recs, ys[m].name@));
        let p = choose|p: int| 0 <= p < xs.len() && (#[trigger] xs[p]).name@ == ys[m].name@;
        if p < m {
            text::before_total(ys[p].name@, ys[m].name@);
        }
        if q > m {
            // ys[m] is before ys[q] = xs[m]; and it is xs[p] with p >= m
            assert(text::before(ys[m].name@, ys[q].name@));
            if p > m {
                assert(text::before(xs[m].name@, xs[p].name@));
            }
            text::before_total(ys[m].name@, xs[m].name@);
        }
    }
}

// ---------------------------------------------------------------------------
// What the records say
// ---------------------------------------------------------------------------

/// The search by name finds the address of the first record under that name that has one,
/// whether or not the interface is a loopback one; and nothing where none has one.
pub proof fn search_finds_the_first(recs: Seq<Record>, name: Seq<char>, i: int)
    requires
        0 <= i <= recs.len(),
        forall|k: int| 0 <= k < i ==> !((#[trigger] recs[k]).name == name && recs[k].ip is Some),
        i < recs.len() ==> recs[i].name == name && recs[i].ip is Some,
    ensures
        i < recs.len() ==> first_ip(recs, name) == recs[i].ip,
        i == recs.len() ==> first_ip(recs, name) is None,
    decreases i,
{
    if i > 0 {
        let tail = recs.drop_first();
        assert(!(recs[0].name == name && recs[0].ip is Some));
        assert forall|k: int| 0 <= k < i - 1 implies !((#[trigger] tail[k]).name == name
            && tail[k].ip is Some) by {
            assert(tail[k] == recs[k + 1]);
        }
        search_finds_the_first(tail, name, i - 1);
    }
}

/// A listed interface shows the address of the last record under its name that has one, and
/// none where no record has one.
pub proof fn list_shows_the_last(
    list: Seq<NetworkInterface>,
    recs: Seq<Record>,
    n: int,
    i: int,
)
    requires
        lists(list, recs),
        0 <= n < list.len(),
        -1 <= i < recs.len(),
        forall|k: int|
            i < k < recs.len() ==> !((#[trigger] recs[k]).name == list[n].name@
                && recs[k].ip is Some),
        i >= 0 ==> recs[i].name == list[n].name@ && recs[i].ip is Some,
    ensures
        i >= 0 ==> list[n].ip == recs[i].ip,
        i == -1 ==> list[n].ip is None,
{
    assert(list[n].ip == last_ip(recs, list[n].name@));
    lemma_last_found(recs, list[n].name@, i);
}

proof fn lemma_last_found(recs: Seq<Record>, name: Seq<char>, i: int)
    requires
        -1 <= i < recs.len(),
        forall|k: int|
            i < k < recs.len() ==> !((#[trigger] recs[k]).name == name && recs[k].ip is Some),
        i >= 0 ==> recs[i].name == name && recs[i].ip is Some,
    ensures
        i >= 0 ==> last_ip(recs, name) == recs[i].ip,
        i == -1 ==> last_ip(recs, name) is None,
    decreases recs.len(),
{
    if i < recs.len() - 1 {
        let front = recs.drop_last();
        assert(!(recs[recs.len() - 1].name == name && recs[recs.len() - 1].ip is Some));
        assert forall|k: int| i < k < front.len() implies !((#[trigger] front[k]).name == name
            && front[k].ip is Some) by {
            assert(front[k] == recs[k]);
        }
        lemma_last_found(front, name, i);
    }
}

/// An interface of which one record is flagged is not listed, whatever its name, its addresses
/// and its other records; nor is "lo".
pub proof fn flagged_is_left_out(
    list: Seq<NetworkInterface>,
    recs: Seq<Record>,
    k: int,
    n: int,
)
    requires
        lists(list, recs),
        0 <= n < list.len(),
        0 <= k < recs.len(),
    ensures
        recs[k].loopback ==> list[n].name@ != recs[k].name,
        list[n].name@ != "lo"@,
{
    assert(listed(recs, list[n].name@));
    if recs[k].name == list[n].name@ {
        assert(!recs[k].loopback);
    }
}

/// Every other interface is listed, exactly once, and the names stand in dictionary order.
pub proof fn others_are_listed_once(list: Seq<NetworkInterface>, recs: Seq<Record>, k: int)
    requires
        lists(list, recs),
        0 <= k < recs.len(),
        recs[k].name != "lo"@,
        forall|j: int|
            0 <= j < recs.len() && (#[trigger] recs[j]).name == recs[k].name ==> !recs[j].loopback,
    ensures
        exists|n: int| 0 <= n < list.len() && (#[trigger] list[n]).name@ == recs[k].name,
        forall|m: int, n: int|
            0 <= m < n < list.len() ==> (#[trigger] list[m]).name@ != (#[trigger] list[n]).name@
                && text::before(list[m].name@, list[n].name@),
{
    assert(listed(recs, recs[k].name));
    assert forall|m: int, n: int| 0 <= m < n < list.len() implies (#[trigger] list[m]).name@ != (
    #[trigger] list[n]).name@ && text::before(list[m].name@, list[n].name@) by {
        text::before_total(list[m].name@, list[n].name@);
    }
}

/// The records are taken as they are reported, in turn; there are none where they could not be
/// had.
pub proof fn records_are_taken_in_turn(addrs: Option<Vec<InterfaceAddress>>)
    ensures
        addrs is None ==> records(addrs).len() == 0,
        addrs matches Some(v) ==> records(addrs).len() == v@.len() && forall|i: int|
            0 <= i < v@.len() ==> (#[trigger] records(addrs)[i]).name == v@[i].name@ && records(
                addrs,
            )[i].ip == v@[i].ip && records(addrs)[i].loopback == v@[i].loopback,
{
}

/// An address is written as its four octets in decimal, in their order, with a dot between
/// them; and different addresses are written differently.
pub proof fn address_is_written_by_octets(x: Ipv4, y: Ipv4)
    ensures
        x.dotted() == text::decimal(x.a as nat).push('.') + text::decimal(x.b as nat).push('.')
            + text::decimal(x.c as nat).push('.') + text::decimal(x.d as nat),
        x.dotted() == y.dotted() ==> x == y,
{
    reveal_strlit(".");
    assert("."@ =~= seq!['.']);
    lemma_dots(
        text::decimal(x.a as nat),
        text::decimal(x.b as nat),
        text::decimal(x.c as nat),
        text::decimal(x.d as nat),
    );
    if x.dotted() == y.dotted() {
        lemma_dotted_told_apart(x, y);
    }
}

proof fn lemma_dots(a: Seq<char>, b: Seq<char>, c: Seq<char>, d: Seq<char>)
    ensures
        a + seq!['.'] + b + seq!['.'] + c + seq!['.'] + d == a.push('.') + b.push('.') + c.push('.')
            + d,
        a + seq!['.'] + b + seq!['.'] + c + seq!['.'] + d == a + (seq!['.'] + (b + (seq!['.'] + (c
            + (seq!['.'] + d))))),
{
    assert(a + seq!['.'] + b + seq!['.'] + c + seq!['.'] + d =~= a.push('.') + b.push('.')
        + c.push('.') + d);
    assert(a + seq!['.'] + b + seq!['.'] + c + seq!['.'] + d =~= a + (seq!['.'] + (b + (seq!['.']
        + (c + (seq!['.'] + d))))));
}

proof fn lemma_dotted_told_apart(x: Ipv4, y: Ipv4)
    requires
        x.dotted() == y.dotted(),
    ensures
        x == y,
{
    reveal_strlit(".");
    assert("."@ =~= seq!['.']);
    let xd = text::decimal(x.d as nat);
    let yd = text::decimal(y.d as nat);
    let x3 = text::decimal(x.c as nat) + (seq!['.'] + xd);
    let y3 = text::decimal(y.c as nat) + (seq!['.'] + yd);
    let x2 = text::decimal(x.b as nat) + (seq!['.'] + x3);
    let y2 = text::decimal(y.b as nat) + (seq!['.'] + y3);
    lemma_dots(text::decimal(x.a as nat), text::decimal(x.b as nat), text::decimal(x.c as nat), xd);
    lemma_dots(text::decimal(y.a as nat), text::decimal(y.b as nat), text::decimal(y.c as nat), yd);
    lemma_octet_told_apart(x.a as nat, x2, y.a as nat, y2);
    lemma_octet_told_apart(x.b as nat, x3, y.b as nat, y3);
    lemma_octet_told_apart(x.c as nat, xd, y.c as nat, yd);
    text::decimal_injective(x.d as nat, y.d as nat);
}

proof fn lemma_octet_told_apart(m: nat, u: Seq<char>, n: nat, v: Seq<char>)
    requires
        text::decimal(m) + (seq!['.'] + u) == text::decimal(n) + (seq!['.'] + v),
    ensures
        m == n,
        u == v,
{
    let a = text::decimal(m);
    let b = text::decimal(n);
    let s = a + (seq!['.'] + u);
    let t = b + (seq!['.'] + v);
    text::decimal_is_digits(m);
    text::decimal_is_digits(n);
    assert(s[a.len() as int] == '.');
    assert(t[b.len() as int] == '.');
    if a.len() < b.len() {
        assert(t[a.len() as int] == b[a.len() as int]);
        assert(text::is_digit(b[a.len() as int]));
    } else if b.len() < a.len() {
        assert(s[b.len() as int] == a[b.len() as int]);
        assert(text::is_digit(a[b.len() as int]));
    }
    assert(a =~= s.take(a.len() as int));
    assert(b =~= t.take(b.len() as int));
    assert(u =~= s.skip(a.len() as int + 1));
    assert(v =~= t.skip(b.len() as int + 1));
    text::decimal_injective(m, n);
}

/// An interface is described by its name, followed in brackets by its address, or by that it
/// has none.
pub proof fn interface_is_described(name: Seq<char>, ip: Ipv4)
    ensures
        interface_label(name, Some(ip)) == name + " ("@ + ip.dotted() + ")"@,
        interface_label(name, None) == name + " (no IPv4)"@,
{
}

} // verus!
