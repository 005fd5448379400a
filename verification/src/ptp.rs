//! The clock's state as statime reports it on its observation socket.

use vstd::prelude::*;

verus! {

// ---------------------------------------------------------------------------
// JSON documents
// ---------------------------------------------------------------------------

/// As much of a JSON value as is read here: integers, and the members of objects.
pub enum Json {
    Integer(int),
    Object(Map<Seq<char>, Json>),
    Other,
}

impl Json {
    /// The member `key` of an object.
    pub open spec fn member(self, key: Seq<char>) -> Option<Json> {
        match self {
            Json::Object(members) => if members.contains_key(key) {
                Some(members[key])
            } else {
                None
            },
            _ => None,
        }
    }

    /// The value that is reached from this one through the members `keys` in turn.
    pub open spec fn reached(self, keys: Seq<Seq<char>>) -> Option<Json>
        decreases keys.len(),
    {
        if keys.len() == 0 {
            Some(self)
        } else {
            match self.member(keys[0]) {
                Some(value) => value.reached(keys.drop_first()),
                None => None,
            }
        }
    }

    /// The value as a 64-bit signed integer.
    pub open spec fn signed(self) -> Option<i64> {
        match self {
            Json::Integer(n) => if i64::MIN <= n <= i64::MAX {
                Some(n as i64)
            } else {
                None
            },
            _ => None,
        }
    }

    /// The value as a 64-bit unsigned integer.
    pub open spec fn unsigned(self) -> Option<u64> {
        match self {
            Json::Integer(n) => if 0 <= n <= u64::MAX {
                Some(n as u64)
            } else {
                None
            },
            _ => None,
        }
    }
}

/// A key that stands for itself in a JSON pointer and never for a place in an array:
/// without "/" and "~", and beginning with something else than a digit.
pub open spec fn plain_key(key: Seq<char>) -> bool {
    &&& key.len() > 0
    &&& !('0' <= key[0] <= '9')
    &&& !key.contains('/')
    &&& !key.contains('~')
}

/// The JSON pointer through the members `keys` in turn.
pub open spec fn pointer_to(keys: Seq<Seq<char>>) -> Seq<char>
    decreases keys.len(),
{
    if keys.len() == 0 {
        Seq::empty()
    } else {
        seq!['/'] + keys[0] + pointer_to(keys.drop_first())
    }
}

/// `serde_json::Value`, a JSON value of any kind.
#[verifier::external_type_specification]
#[verifier::external_body]
pub struct ExValue(serde_json::Value);

/// The integers and members that a `serde_json::Value` holds.
pub uninterp spec fn json_of(value: serde_json::Value) -> Json;

/// What `serde_json` reads from a JSON document, where it is one.
pub uninterp spec fn json_document(data: Seq<u8>) -> Option<Json>;

/// The integers and members of a value that may be absent.
pub open spec fn json_of_opt(value: Option<&serde_json::Value>) -> Option<Json> {
    match value {
        Some(v) => Some(json_of(*v)),
        None => None,
    }
}

/// `serde_json::Error`, why bytes are not a JSON document.
#[verifier::external_type_specification]
#[verifier::external_body]
pub struct ExError(serde_json::Error);

/// `serde_json::from_slice` for `serde_json::Value`: whether the bytes are a JSON document,
/// and what it holds, depends on the bytes alone. Nothing is said here of which bytes are one.
#[verifier::external_body]
fn read_json(data: &[u8]) -> (r: Result<serde_json::Value, serde_json::Error>)
    ensures
        json_document(data@) == (match r {
            Ok(value) => Some(json_of(value)),
            Err(_) => None,
        }),
{
    serde_json::from_slice::<serde_json::Value>(data)
}

/// `serde_json::Value::get` with a text: the member of that name of an object, and nothing
/// for a value of another kind.
#[verifier::external_body]
fn json_member<'a>(value: &'a serde_json::Value, key: &str) -> (r: Option<&'a serde_json::Value>)
    ensures
        json_of_opt(r) == json_of(*value).member(key@),
{
    value.get(key)
}

/// `serde_json::Value::pointer`: a pointer made of plain keys leads through the members of
/// those names. Nothing is said here of other pointers.
pub assume_specification<'a, 'b>[ serde_json::Value::pointer ](
    value: &'a serde_json::Value,
    pointer: &'b str,
) -> (r: Option<&'a serde_json::Value>)
    ensures
        forall|keys: Seq<Seq<char>>|
            pointer@ == #[trigger] pointer_to(keys) && (forall|i: int|
                0 <= i < keys.len() ==> plain_key(#[trigger] keys[i])) ==> json_of_opt(r) == json_of(
                *value,
            ).reached(keys),
;

/// `serde_json::Value::as_i64`: the value where it is an integer that fits.
pub assume_specification[ serde_json::Value::as_i64 ](value: &serde_json::Value) -> (r: Option<i64>)
    ensures
        r == json_of(*value).signed(),
;

/// `serde_json::Value::as_u64`: the value where it is an integer that fits.
pub assume_specification[ serde_json::Value::as_u64 ](value: &serde_json::Value) -> (r: Option<u64>)
    ensures
        r == json_of(*value).unsigned(),
;

// ---------------------------------------------------------------------------
// Clock status
// ---------------------------------------------------------------------------

/// Fixed-point time: how many units of statime's time are a nanosecond.
pub const UNITS_PER_NS: i64 = 4_294_967_296;

/// The offset below which the clock counts as synced, in nanoseconds.
pub const SYNC_LIMIT_NS: i64 = 500_000;

#[derive(Clone, Copy, Debug, PartialEq, Eq, Structural)]
pub struct PtpStatus {
    /// Offset from PTP master, in units of 2^-32 nanoseconds
    pub offset_bits: i64,
    /// Mean network delay, in units of 2^-32 nanoseconds
    pub delay_bits: i64,
    /// True when we have received at least one status update
    pub has_data: bool,
    /// True when offset is small enough to consider synced
    pub synced: bool,
}

impl PtpStatus {
    /// The status before the first update.
    pub open spec fn none() -> PtpStatus {
        PtpStatus { offset_bits: 0, delay_bits: 0, has_data: false, synced: false }
    }

    /// The status that an update gives: the clock is synced when its offset is less than the
    /// limit either way and it follows a master, that is, the number of steps to the grandmaster
    /// is not zero. Of that number, zero where it is not reported, the low 16 bits count.
    pub open spec fn reported(offset_bits: i64, delay_bits: i64, steps: Option<u64>) -> PtpStatus {
        let removed: nat = match steps {
            Some(n) => n as nat % 0x1_0000,
            None => 0,
        };
        PtpStatus {
            offset_bits,
            delay_bits,
            has_data: true,
            synced: -(SYNC_LIMIT_NS * UNITS_PER_NS) < offset_bits < SYNC_LIMIT_NS * UNITS_PER_NS
                && removed > 0,
        }
    }

    /// The status that a document gives: its member "instance" has a member "current_ds", of
    /// which "offset_from_master" and "mean_delay" must be integers.
    pub open spec fn of_json(document: Json) -> Option<PtpStatus> {
        match document.reached(seq!["instance"@, "current_ds"@]) {
            Some(ds) => match (ds.member("offset_from_master"@), ds.member("mean_delay"@)) {
                (Some(offset), Some(delay)) => match (offset.signed(), delay.signed()) {
                    (Some(offset_bits), Some(delay_bits)) => {
                        let steps = match ds.member("steps_removed"@) {
                            Some(n) => n.unsigned(),
                            None => None,
                        };
                        Some(PtpStatus::reported(offset_bits, delay_bits, steps))
                    },
                    _ => None,
                },
                _ => None,
            },
            None => None,
        }
    }

    /// The status that the bytes of an observation give.
    pub open spec fn of_bytes(data: Seq<u8>) -> Option<PtpStatus> {
        match json_document(data) {
            Some(document) => PtpStatus::of_json(document),
            None => None,
        }
    }

    /// Makes the status of an update.
    pub fn new(offset_bits: i64, delay_bits: i64, steps: Option<u64>) -> (r: PtpStatus)
        ensures
            r == PtpStatus::reported(offset_bits, delay_bits, steps),
    {
        let removed: u64 = match steps {
            Some(n) => n % 0x1_0000,
            None => 0,
        };
        let limit: i64 = SYNC_LIMIT_NS * UNITS_PER_NS;
        PtpStatus {
            offset_bits,
            delay_bits,
            has_data: true,
            synced: -limit < offset_bits && offset_bits < limit && removed > 0,
        }
    }
}

impl Default for PtpStatus {
    fn default() -> (r: Self)
        ensures
            r == PtpStatus::none(),
    {
        PtpStatus { offset_bits: 0, delay_bits: 0, has_data: false, synced: false }
    }
}

/// Reads the status from the bytes of an observation.
pub fn read_ptp_status(data: &[u8]) -> (r: Option<PtpStatus>)
    ensures
        r == PtpStatus::of_bytes(data@),
{
    match read_json(data) {
        Ok(document) => ptp_status_in(&document),
        Err(_) => None,
    }
}

/// Reads the status from the document of an observation.
pub fn ptp_status_in(document: &serde_json::Value) -> (r: Option<PtpStatus>)
    ensures
        r == PtpStatus::of_json(json_of(*document)),
{
    proof {
        let keys = seq!["instance"@, "current_ds"@];
        reveal_strlit("instance");
        reveal_strlit("current_ds");
        reveal_strlit("/instance/current_ds");
        reveal_with_fuel(pointer_to, 3);
        assert(keys.drop_first() =~= seq!["current_ds"@]);
        assert(keys.drop_first().drop_first() =~= Seq::<Seq<char>>::empty());
        assert("/instance/current_ds"@ =~= pointer_to(keys));
        assert(plain_key(keys[0]));
        assert(plain_key(keys[1]));
    }
    let ds = match document.pointer("/instance/current_ds") {
        Some(ds) => ds,
        None => return None,
    };
    let offset_bits: i64 = match json_member(ds, "offset_from_master") {
        Some(v) => match v.as_i64() {
            Some(n) => n,
            None => return None,
        },
        None => return None,
    };
    let delay_bits: i64 = match json_member(ds, "mean_delay") {
        Some(v) => match v.as_i64() {
            Some(n) => n,
            None => return None,
        },
        None => return None,
    };
    let steps: Option<u64> = match json_member(ds, "steps_removed") {
        Some(v) => v.as_u64(),
        None => None,
    };
    Some(PtpStatus::new(offset_bits, delay_bits, steps))
}

/// The unit in which a time is shown.
#[derive(Clone, Copy, Debug, PartialEq, Eq, Structural)]
pub enum TimeUnit {
    Nanoseconds,
    Microseconds,
    Milliseconds,
}

/// The magnitude of an integer.
pub open spec fn magnitude(n: int) -> int {
    if n < 0 {
        -n
    } else {
        n
    }
}

/// The unit that suits a time: nanoseconds below a microsecond, microseconds below a
/// millisecond, and milliseconds from there on.
pub open spec fn suited_unit(bits: i64) -> TimeUnit {
    if magnitude(bits as int) < 1_000 * UNITS_PER_NS {
        TimeUnit::Nanoseconds
    } else if magnitude(bits as int) < 1_000_000 * UNITS_PER_NS {
        TimeUnit::Microseconds
    } else {
        TimeUnit::Milliseconds
    }
}

/// The sign that is shown before a time.
pub open spec fn sign_of(bits: i64) -> Seq<char> {
    if bits < 0 {
        "-"@
    } else {
        "+"@
    }
}

/// How a time is shown: its sign, "-" or "+", and its unit.
pub fn time_display(bits: i64) -> (r: (&'static str, TimeUnit))
    ensures
        r.0@ == (if bits < 0 {
            "-"@
        } else {
            "+"@
        }),
        r.0@ == sign_of(bits),
        r.1 == suited_unit(bits),
{
    let sign = if bits < 0 {
        "-"
    } else {
        "+"
    };
    let micro: i64 = 1_000 * UNITS_PER_NS;
    let milli: i64 = 1_000_000 * UNITS_PER_NS;
    let unit = if -micro < bits && bits < micro {
        TimeUnit::Nanoseconds
    } else if -milli < bits && bits < milli {
        TimeUnit::Microseconds
    } else {
        TimeUnit::Milliseconds
    };
    (sign, unit)
}

/// A status that counts as synced has data, and its offset is shown in nanoseconds or
/// microseconds.
pub proof fn synced_is_small(offset_bits: i64, delay_bits: i64, steps: Option<u64>)
    ensures
        ({
            let status = PtpStatus::reported(offset_bits, delay_bits, steps);
            status.synced ==> status.has_data && suited_unit(status.offset_bits)
                != TimeUnit::Milliseconds && steps is Some
        }),
{
}

/// An update says that the clock is synced exactly where its offset is less than half a
/// millisecond, either way, and the low 16 bits of the number of steps to the grandmaster are
/// reported and not all zero. The offset and the delay are passed on as they are.
pub proof fn synced_exactly_when_close(offset_bits: i64, delay_bits: i64, steps: Option<u64>)
    ensures
        ({
            let status = PtpStatus::reported(offset_bits, delay_bits, steps);
            &&& status.synced <==> -500_000 * 4_294_967_296 < offset_bits && offset_bits
                < 500_000 * 4_294_967_296 && (steps matches Some(n) && n % 65_536 != 0)
            &&& status.offset_bits == offset_bits
            &&& status.delay_bits == delay_bits
            &&& status.has_data
        }),
{
}

/// The delay plays no part in whether the clock is synced, nor does the direction of the offset;
/// and a clock that is synced stays so when its offset gets smaller.
pub proof fn delay_plays_no_part(
    offset_bits: i64,
    closer_bits: i64,
    delay_bits: i64,
    other_bits: i64,
    steps: Option<u64>,
)
    requires
        magnitude(closer_bits as int) <= magnitude(offset_bits as int),
    ensures
        PtpStatus::reported(offset_bits, delay_bits, steps).synced == PtpStatus::reported(
            offset_bits,
            other_bits,
            steps,
        ).synced,
        PtpStatus::reported(offset_bits, delay_bits, steps).synced ==> PtpStatus::reported(
            closer_bits,
            other_bits,
            steps,
        ).synced,
        offset_bits > i64::MIN ==> PtpStatus::reported(offset_bits, delay_bits, steps).synced
            == PtpStatus::reported((-offset_bits) as i64, delay_bits, steps).synced,
{
}

/// Before the first update nothing is known, and the clock is not synced.
pub proof fn nothing_is_known_at_first()
    ensures
        !PtpStatus::none().has_data,
        !PtpStatus::none().synced,
        PtpStatus::none().offset_bits == 0,
        PtpStatus::none().delay_bits == 0,
{
}

/// An observation whose data set has an integer offset and delay is read, and gives these very
/// numbers; it is synced where the offset is small and the steps are an integer whose low 16
/// bits are not all zero. Whatever else the document holds makes no difference.
pub proof fn observation_is_read(document: Json, instance: Json, ds: Json, offset: i64, delay: i64)
    requires
        document.member("instance"@) == Some(instance),
        instance.member("current_ds"@) == Some(ds),
        ds.member("offset_from_master"@) == Some(Json::Integer(offset as int)),
        ds.member("mean_delay"@) == Some(Json::Integer(delay as int)),
    ensures
        PtpStatus::of_json(document) matches Some(status) && status.has_data && status.offset_bits
            == offset && status.delay_bits == delay && (status.synced <==> -500_000 * 4_294_967_296
            < offset && offset < 500_000 * 4_294_967_296 && (ds.member("steps_removed"@) matches Some(
            Json::Integer(n),
        ) && 0 <= n <= u64::MAX && n % 65_536 != 0)),
{
    let keys = seq!["instance"@, "current_ds"@];
    assert(keys.drop_first() =~= seq!["current_ds"@]);
    assert(keys.drop_first().drop_first() =~= Seq::<Seq<char>>::empty());
    reveal_with_fuel(Json::reached, 3);
}

/// Only such an observation is read: its data set is there, and has an integer offset and delay
/// that fit.
pub proof fn only_observations_are_read(document: Json)
    ensures
        PtpStatus::of_json(document) is Some ==> ({
            &&& document.member("instance"@) matches Some(instance)
            &&& instance.member("current_ds"@) matches Some(ds)
            &&& ds.member("offset_from_master"@) matches Some(Json::Integer(offset))
            &&& i64::MIN <= offset <= i64::MAX
            &&& ds.member("mean_delay"@) matches Some(Json::Integer(delay))
            &&& i64::MIN <= delay <= i64::MAX
        }),
{
    let keys = seq!["instance"@, "current_ds"@];
    assert(keys.drop_first() =~= seq!["current_ds"@]);
    assert(keys.drop_first().drop_first() =~= Seq::<Seq<char>>::empty());
    reveal_with_fuel(Json::reached, 3);
}

/// Bytes that are no JSON document give no status; those of one give what the document does.
pub proof fn bytes_are_read_as_a_document(data: Seq<u8>)
    ensures
        json_document(data) is None ==> PtpStatus::of_bytes(data) is None,
        json_document(data) matches Some(document) ==> PtpStatus::of_bytes(data)
            == PtpStatus::of_json(document),
{
}

/// A time is shown in nanoseconds below a microsecond, in microseconds below a millisecond, and
/// in milliseconds from there on, alike in both directions; and with a minus sign exactly where
/// it is negative.
pub proof fn times_are_shown_suitably(bits: i64)
    ensures
        suited_unit(bits) == TimeUnit::Nanoseconds <==> -1_000 * 4_294_967_296 < bits && bits
            < 1_000 * 4_294_967_296,
        suited_unit(bits) == TimeUnit::Milliseconds <==> bits <= -1_000_000 * 4_294_967_296 || bits
            >= 1_000_000 * 4_294_967_296,
        sign_of(bits) == "-"@ <==> bits < 0,
        sign_of(bits) == "+"@ <==> bits >= 0,
{
    reveal_strlit("-");
    reveal_strlit("+");
    assert("-"@[0] == '-');
    assert("+"@[0] == '+');
}

/// A member of an object is found by its name; nothing else has members.
pub proof fn members_are_found(members: Map<Seq<char>, Json>, key: Seq<char>, n: int)
    ensures
        members.contains_key(key) ==> Json::Object(members).member(key) == Some(members[key]),
        !members.contains_key(key) ==> Json::Object(members).member(key) is None,
        Json::Integer(n).member(key) is None,
        Json::Other.member(key) is None,
        Json::Other.signed() is None,
        Json::Object(members).signed() is None,
        Json::Other.unsigned() is None,
        Json::Object(members).unsigned() is None,
{
}

} // verus!
