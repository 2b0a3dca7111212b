//! The battery model: the coarse charge status, one battery's last-known
//! reading, the OS paths of the percent and status files, the
//! interpretation of the text found in them, and the battery ids embedded
//! in power-supply entry names.
use vstd::prelude::*;

use crate::text::{
    all_digits, chars_eq_str, chars_of, contains_chars, contains_sub, dec_rep, digits_val,
    is_digit, is_u32_text, parse_digits_range, parse_u32_chars, remove_char, remove_char_vec,
    str_eq, u32_text_val, u32_to_string,
};
use vstd::multiset::Multiset;
use vstd::utf8::is_ascii_chars;

verus! {

/// Coarse charge state as the OS status file reports it. Any text other
/// than the three recognized values maps to `Unknown`.
#[derive(Clone, Copy, Debug, PartialEq, Eq, Structural)]
pub enum ChargeStatus {
    Charging,
    Discharging,
    NotCharging,
    Unknown,
}

/// The status that a given status-file text denotes: exactly `"Charging"`,
/// `"Discharging"` and `"Not charging"` are recognized; everything else is
/// `Unknown`.
pub open spec fn charge_status_of(s: Seq<char>) -> ChargeStatus {
    if s == "Charging"@ {
        ChargeStatus::Charging
    } else if s == "Not charging"@ {
        ChargeStatus::NotCharging
    } else if s == "Discharging"@ {
        ChargeStatus::Discharging
    } else {
        ChargeStatus::Unknown
    }
}

impl<'a> From<&'a str> for ChargeStatus {
    fn from(value: &'a str) -> (r: Self) {
        if str_eq(value, "Charging") {
            ChargeStatus::Charging
        } else if str_eq(value, "Not charging") {
            ChargeStatus::NotCharging
        } else if str_eq(value, "Discharging") {
            ChargeStatus::Discharging
        } else {
            ChargeStatus::Unknown
        }
    }
}

impl<'a> vstd::std_specs::convert::FromSpecImpl<&'a str> for ChargeStatus {
    open spec fn obeys_from_spec() -> bool {
        true
    }

    open spec fn from_spec(v: &'a str) -> ChargeStatus {
        charge_status_of(v@)
    }
}

/// One battery's last-known reading.
#[derive(Clone, Copy, Debug, PartialEq, Eq, Structural)]
pub struct Battery {
    pub id: u32,
    pub percent: u32,
    pub status: ChargeStatus,
}

impl Battery {
    /// A reading is well formed when its percent is within scale.
    pub open spec fn wf(self) -> bool {
        self.percent <= 100
    }
}

/// The characters of the OS path of the percent file of battery `id`.
pub open spec fn percent_path_spec(id: u32) -> Seq<char> {
    "/sys/class/power_supply/BAT"@ + dec_rep(id as nat) + "/capacity"@
}

/// The characters of the OS path of the status file of battery `id`.
pub open spec fn status_path_spec(id: u32) -> Seq<char> {
    "/sys/class/power_supply/BAT"@ + dec_rep(id as nat) + "/status"@
}

/// The OS path of the percent file of battery `id`.
pub fn percent_path(id: u32) -> (r: String)
    ensures
        r@ == percent_path_spec(id),
{
    let mut s = String::new();
    s.append("/sys/class/power_supply/BAT");
    let digits = u32_to_string(id);
    s.append(digits.as_str());
    s.append("/capacity");
    proof {
        assert(s@ =~= percent_path_spec(id));
    }
    s
}

/// The OS path of the status file of battery `id`.
pub fn status_path(id: u32) -> (r: String)
    ensures
        r@ == status_path_spec(id),
{
    let mut s = String::new();
    s.append("/sys/class/power_supply/BAT");
    let digits = u32_to_string(id);
    s.append(digits.as_str());
    s.append("/status");
    proof {
        assert(s@ =~= status_path_spec(id));
    }
    s
}

/// Reads the text of a percent file: newlines are dropped anywhere, then
/// the rest must be an unsigned number. Returns `None` exactly when the
/// remaining text is not such a number; the caller treats that as an
/// unreadable battery.
pub fn parse_percent_text(s: &str) -> (r: Option<u32>)
    ensures
        r is Some <==> is_u32_text(remove_char(s@, '\n')),
        r is Some ==> r->0 == u32_text_val(remove_char(s@, '\n')),
{
    let cs = chars_of(s);
    let stripped = remove_char_vec(&cs, '\n');
    parse_u32_chars(&stripped)
}

/// Reads the text of a status file: newlines are dropped anywhere, then
/// the rest is mapped to a status, with anything unrecognized `Unknown`.
pub fn parse_status_text(s: &str) -> (r: ChargeStatus)
    ensures
        r == charge_status_of(remove_char(s@, '\n')),
{
    let cs = chars_of(s);
    let stripped = remove_char_vec(&cs, '\n');
    if chars_eq_str(&stripped, "Charging") {
        ChargeStatus::Charging
    } else if chars_eq_str(&stripped, "Not charging") {
        ChargeStatus::NotCharging
    } else if chars_eq_str(&stripped, "Discharging") {
        ChargeStatus::Discharging
    } else {
        ChargeStatus::Unknown
    }
}

/// The batteries enumerated from the OS power-supply registry, sorted
/// ascending by id. The surrounding binary lists the registry directory and
/// builds this from the entry names and live readings.
#[derive(Debug)]
pub struct Batteries {
    pub entry: Vec<Battery>,
}

impl Batteries {
    /// Every enumerated reading is well formed.
    pub open spec fn wf(&self) -> bool {
        forall|i: int| 0 <= i < self.entry@.len() ==> (#[trigger] self.entry@[i]).wf()
    }
}

/// A missing battery is an expected, reportable condition; any other failure
/// while reading a present battery is treated as fatal by the caller.
#[derive(Clone, Copy, Debug, PartialEq, Eq, Structural)]
pub enum BatteryError {
    BatteryDoesNotExist,
}

/// Whether a power-supply entry name denotes a battery.
pub open spec fn is_batt_name(s: Seq<char>) -> bool {
    contains_sub(s, "BAT"@)
}

/// The battery entry names among a registry listing, in listing order.
pub open spec fn batt_names(l: Seq<Seq<char>>) -> Seq<Seq<char>>
    decreases l.len(),
{
    if l.len() == 0 {
        Seq::empty()
    } else {
        batt_names(l.drop_last()) + (if is_batt_name(l.last()) {
            seq![l.last()]
        } else {
            Seq::<Seq<char>>::empty()
        })
    }
}

/// Whether `s` holds a decimal digit at all.
pub open spec fn has_digit(s: Seq<char>) -> bool {
    exists|i: int| 0 <= i < s.len() && is_digit(#[trigger] s[i])
}

/// The index of the first digit of `s`; its length when there is none.
pub open spec fn first_digit_ix(s: Seq<char>) -> int
    decreases s.len(),
{
    if s.len() == 0 {
        0
    } else if is_digit(s[0]) {
        0
    } else {
        1 + first_digit_ix(s.drop_first())
    }
}

/// The end of the run of digits of `s` that starts at `i`.
pub open spec fn digit_run_end(s: Seq<char>, i: int) -> int
    recommends
        0 <= i <= s.len(),
    decreases s.len() - i,
{
    if i < s.len() && is_digit(s[i]) {
        digit_run_end(s, i + 1)
    } else {
        i
    }
}

/// The id embedded in an entry name: the value of its first run of digits.
pub open spec fn name_id_val(s: Seq<char>) -> nat
    recommends
        has_digit(s),
{
    digits_val(s.subrange(first_digit_ix(s), digit_run_end(s, first_digit_ix(s))))
}

/// Whether an id can be read out of a battery entry name: the name is
/// ASCII, holds a digit, and the embedded id fits `u32`.
pub open spec fn name_ok(s: Seq<char>) -> bool {
    is_ascii_chars(s) && has_digit(s) && name_id_val(s) <= u32::MAX
}

proof fn lemma_first_digit_ix(s: Seq<char>, i: int)
    requires
        0 <= i < s.len(),
        is_digit(s[i]),
        forall|k: int| 0 <= k < i ==> !is_digit(#[trigger] s[k]),
    ensures
        first_digit_ix(s) == i,
    decreases i,
{
    if i > 0 {
        lemma_first_digit_ix(s.drop_first(), i - 1);
    }
}

proof fn lemma_digit_run_end(s: Seq<char>, i: int, j: int)
    requires
        0 <= i <= j <= s.len(),
        forall|k: int| i <= k < j ==> is_digit(#[trigger] s[k]),
        j == s.len() || !is_digit(s[j]),
    ensures
        digit_run_end(s, i) == j,
    decreases j - i,
{
    if i < j {
        lemma_digit_run_end(s, i + 1, j);
    }
}

/// The battery names of a listing are those of any prefix followed by
/// those of the rest.
proof fn lemma_batt_names_split(l: Seq<Seq<char>>, k: int)
    requires
        0 <= k <= l.len(),
    ensures
        batt_names(l) == batt_names(l.take(k)) + batt_names(l.skip(k)),
    decreases l.len(),
{
    if k == l.len() {
        assert(l.take(k) =~= l);
        assert(batt_names(l.skip(k)) =~= Seq::<Seq<char>>::empty());
        assert(batt_names(l) =~= batt_names(l.take(k)) + batt_names(l.skip(k)));
    } else {
        lemma_batt_names_split(l.drop_last(), k);
        assert(l.drop_last().take(k) =~= l.take(k));
        assert(l.drop_last().skip(k) =~= l.skip(k).drop_last());
        assert(l.skip(k).last() == l.last());
        assert(batt_names(l) =~= batt_names(l.take(k)) + batt_names(l.skip(k)));
    }
}

/// Relies on regex's search for the pattern of one or more decimal
/// digits: the leftmost match starts at the first digit of the text and,
/// being greedy, extends to the end of that run of digits; its byte
/// offsets equal character offsets because the text is ASCII.
#[verifier::external_body]
fn find_digit_run(s: &str) -> (r: Option<(usize, usize)>)
    requires
        vstd::string::is_ascii(s),
    ensures
        r is None ==> forall|k: int| 0 <= k < s@.len() ==> !is_digit(#[trigger] s@[k]),
        r is Some ==> {
            let (i, j) = r->0;
            &&& i < j <= s@.len()
            &&& forall|k: int| i <= k < j ==> is_digit(#[trigger] s@[k])
            &&& forall|k: int| 0 <= k < i ==> !is_digit(#[trigger] s@[k])
            &&& (j == s@.len() || !is_digit(s@[j as int]))
        },
{
    let re = regex::Regex::new(r"\d+").unwrap();
    match re.find(s) {
        Some(m) => Some((m.start(), m.end())),
        None => None,
    }
}

/// The ids embedded in the battery entry names of a registry listing, in
/// listing order. Returns `None` exactly when some battery entry name is
/// not ASCII, holds no digit, or embeds an id too large for `u32`; the
/// caller treats that as an unreadable registry.
pub fn battery_ids(names: &Vec<String>) -> (r: Option<Vec<u32>>)
    ensures
        ({
            let bn = batt_names(names.deep_view());
            &&& (r is Some <==> (forall|j: int| 0 <= j < bn.len() ==> name_ok(#[trigger] bn[j])))
            &&& (r is Some ==> r->0@.len() == bn.len() && (forall|j: int|
                0 <= j < bn.len() ==> r->0@[j] == name_id_val(#[trigger] bn[j])))
        }),
{
    let ghost dv = names.deep_view();
    let ghost bn = batt_names(dv);
    let bat_pat = chars_of("BAT");
    let mut out: Vec<u32> = Vec::new();
    let mut i: usize = 0;
    while i < names.len()
        invariant
            0 <= i <= names@.len(),
            dv == names.deep_view(),
            bn == batt_names(dv),
            dv.len() == names@.len(),
            bat_pat@ == "BAT"@,
            forall|k: int| 0 <= k < dv.len() ==> #[trigger] dv[k] == names@[k]@,
            out@.len() == batt_names(dv.take(i as int)).len(),
            forall|j: int|
                0 <= j < batt_names(dv.take(i as int)).len() ==> name_ok(
                    #[trigger] batt_names(dv.take(i as int))[j],
                ),
            forall|j: int|
                0 <= j < batt_names(dv.take(i as int)).len() ==> out@[j] == name_id_val(
                    #[trigger] batt_names(dv.take(i as int))[j],
                ),
        decreases names@.len() - i,
    {
        let ghost prefix = batt_names(dv.take(i as int));
        proof {
            assert(dv.take(i + 1).drop_last() =~= dv.take(i as int));
            assert(dv.take(i + 1).last() == dv[i as int]);
        }
        let name: &String = &names[i];
        let cs = chars_of(name.as_str());
        if contains_chars(&cs, &bat_pat) {
            proof {
                assert(batt_names(dv.take(i + 1)) =~= prefix.push(dv[i as int]));
                lemma_batt_names_split(dv, i + 1);
                assert(bn[prefix.len() as int] == dv[i as int]);
            }
            if !name.as_str().is_ascii() {
                return None;
            }
            match find_digit_run(name.as_str()) {
                None => {
                    return None;
                },
                Some((a, b)) => {
                    proof {
                        lemma_first_digit_ix(name@, a as int);
                        lemma_digit_run_end(name@, a as int, b as int);
                    }
                    let mut run: Vec<char> = Vec::new();
                    let mut k: usize = a;
                    while k < b
                        invariant
                            a <= k <= b <= cs@.len(),
                            cs@ == name@,
                            run@ =~= name@.subrange(a as int, k as int),
                        decreases b - k,
                    {
                        run.push(cs[k]);
                        k = k + 1;
                        proof {
                            assert(run@ =~= name@.subrange(a as int, k as int));
                        }
                    }
                    proof {
                        assert(run@.skip(0) =~= run@);
                        assert(all_digits(run@));
                    }
                    match parse_digits_range(&run, 0) {
                        None => {
                            return None;
                        },
                        Some(val) => {
                            out.push(val);
                        },
                    }
                },
            }
        } else {
            proof {
                assert(batt_names(dv.take(i + 1)) =~= prefix);
            }
        }
        i = i + 1;
    }
    proof {
        assert(dv.take(names@.len() as int) =~= dv);
    }
    Some(out)
}

/// Whether a sequence of ids is sorted ascending.
pub open spec fn sorted_ids(s: Seq<u32>) -> bool {
    forall|i: int, j: int| 0 <= i < j < s.len() ==> s[i] <= s[j]
}

/// Sorts battery ids ascending, keeping exactly the same ids.
pub fn sort_ids(v: Vec<u32>) -> (r: Vec<u32>)
    ensures
        sorted_ids(r@),
        r@.to_multiset() == v@.to_multiset(),
        r@.len() == v@.len(),
{
    let mut src = v;
    let mut out: Vec<u32> = Vec::new();
    proof {
        broadcast use vstd::multiset::group_multiset_axioms;

        out@.to_multiset_ensures();
        assert(out@.to_multiset().add(src@.to_multiset()) =~= src@.to_multiset());
    }
    while src.len() > 0
        invariant
            sorted_ids(out@),
            out@.to_multiset().add(src@.to_multiset()) == v@.to_multiset(),
            out@.len() + src@.len() == v@.len(),
            forall|i: int, j: int|
                0 <= i < out@.len() && 0 <= j < src@.len() ==> out@[i] <= src@[j],
        decreases src@.len(),
    {
        let mut m: usize = 0;
        let mut j: usize = 1;
        while j < src.len()
            invariant
                0 <= m < j <= src@.len(),
                forall|k: int| 0 <= k < j ==> src@[m as int] <= #[trigger] src@[k],
            decreases src@.len() - j,
        {
            if src[j] < src[m] {
                m = j;
            }
            j = j + 1;
        }
        let ghost old_out = out@;
        let ghost old_src = src@;
        let x = src.remove(m);
        out.push(x);
        proof {
            broadcast use vstd::multiset::group_multiset_axioms;

            old_src.to_multiset_ensures();
            old_out.to_multiset_ensures();
            assert(src@.to_multiset() =~= old_src.to_multiset().remove(x));
            assert(out@.to_multiset() =~= old_out.to_multiset().insert(x));
            assert(old_src.to_multiset().contains(x));
            assert(out@.to_multiset().add(src@.to_multiset()) =~= old_out.to_multiset().add(
                old_src.to_multiset(),
            ));
        }
    }
    proof {
        broadcast use vstd::multiset::group_multiset_axioms;

        src@.to_multiset_ensures();
        assert(src@.to_multiset() =~= Multiset::<u32>::empty());
        assert(out@.to_multiset() =~= v@.to_multiset());
    }
    out
}

} // verus!
