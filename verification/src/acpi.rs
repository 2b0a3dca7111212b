//! The battery report of the `acpi` command: its parsed form, and the
//! parser for one report line such as
//! `Battery 0: Discharging, 97%, 02:20:01 remaining`.
//!
//! Running the command, and reading and writing the cache file, are I/O
//! that the surrounding binary does; the parser here works on the plain
//! report text.
use vstd::prelude::*;

use crate::text::{
    chars_eq_str, chars_of, contains_chars, contains_sub, is_i32_text, is_u32_text,
    i32_text_val, parse_i32_chars, parse_u32_chars, remove_char, remove_char_vec, replace_all,
    replace_chars, spec_split, split_chars, trim_chars, trim_spec, u32_text_val,
};
use crate::time::{hms_of_text, is_hms_text, parse_hms_chars, TimeOfDay};

verus! {

/// Why a report line was rejected.
#[derive(Clone, Copy, Debug, PartialEq, Eq, Structural)]
pub enum ParseError {
    ParseTimeRemain,
    ParseBatteryId,
    ParseChargeStatus,
    ParsePercent,
    TimeRemainFormat,
    BatteryIdNotI32,
}

/// Charge state as the report gives it, with the remaining time the
/// report may carry. Two values are equal exactly when their variants
/// agree: the remaining-time payload is deliberately ignored by `==`,
/// since it changes between readings while the state does not.
#[derive(Clone, Copy, Debug)]
pub enum ChargeStatus {
    Discharging { time_remain: Option<TimeOfDay> },
    Charging { time_remain: Option<TimeOfDay> },
    NotCharging,
    Unknown,
}

/// Whether two report statuses have the same variant, whatever times they
/// carry.
pub open spec fn same_variant(a: ChargeStatus, b: ChargeStatus) -> bool {
    match (a, b) {
        (ChargeStatus::Discharging { .. }, ChargeStatus::Discharging { .. }) => true,
        (ChargeStatus::Charging { .. }, ChargeStatus::Charging { .. }) => true,
        (ChargeStatus::NotCharging, ChargeStatus::NotCharging) => true,
        (ChargeStatus::Unknown, ChargeStatus::Unknown) => true,
        _ => false,
    }
}

impl PartialEq for ChargeStatus {
    fn eq(&self, other: &Self) -> (r: bool) {
        match (self, other) {
            (ChargeStatus::Discharging { .. }, ChargeStatus::Discharging { .. }) => true,
            (ChargeStatus::Charging { .. }, ChargeStatus::Charging { .. }) => true,
            (ChargeStatus::NotCharging, ChargeStatus::NotCharging) => true,
            (ChargeStatus::Unknown, ChargeStatus::Unknown) => true,
            _ => false,
        }
    }
}

impl vstd::std_specs::cmp::PartialEqSpecImpl for ChargeStatus {
    open spec fn obeys_eq_spec() -> bool {
        true
    }

    open spec fn eq_spec(&self, other: &Self) -> bool {
        same_variant(*self, *other)
    }
}

/// One parsed report line.
#[derive(Debug, PartialEq)]
pub struct Data {
    pub output: String,
    pub battery_id: i32,
    pub percent: u32,
    pub status: ChargeStatus,
}

/// The path of the cache file that the one-shot mode compares against.
pub fn cache_path() -> (r: String)
    ensures
        r@ == "./cache/data.json"@,
{
    "./cache/data.json".to_owned()
}

/// The comma-separated fields of a report line, each trimmed.
pub open spec fn comma_fields(s: Seq<char>) -> Seq<Seq<char>> {
    spec_split(s, ',').map_values(|f: Seq<char>| trim_spec(f))
}

/// One colon-separated segment of the first field, with every occurrence
/// of the battery marker dropped.
pub open spec fn seg_transform(seg: Seq<char>) -> Seq<char> {
    if contains_sub(seg, "Battery "@) {
        replace_all(seg, "Battery "@, Seq::empty())
    } else {
        seg
    }
}

/// The colon-separated segments of the first field, transformed.
pub open spec fn id_status_segs(s: Seq<char>) -> Seq<Seq<char>> {
    spec_split(comma_fields(s)[0], ':').map_values(|seg: Seq<char>| seg_transform(seg))
}

/// The text the battery id is read from.
pub open spec fn id_text(s: Seq<char>) -> Seq<char> {
    id_status_segs(s)[0]
}

/// The text the charge status is read from.
pub open spec fn status_text(s: Seq<char>) -> Seq<char>
    recommends
        id_status_segs(s).len() >= 2,
{
    trim_spec(id_status_segs(s)[1])
}

/// The text the percent is read from: the second field without percent
/// signs.
pub open spec fn percent_text(s: Seq<char>) -> Seq<char>
    recommends
        comma_fields(s).len() >= 2,
{
    remove_char(comma_fields(s)[1], '%')
}

/// The text the remaining time is read from: the third field up to its
/// first space.
pub open spec fn time_text(s: Seq<char>) -> Seq<char>
    recommends
        comma_fields(s).len() >= 3,
{
    spec_split(comma_fields(s)[2], ' ')[0]
}

/// Whether parsing gets past the id and status segments, to the point
/// where it reads the second field.
pub open spec fn reaches_percent(s: Seq<char>) -> bool {
    is_i32_text(id_text(s)) && id_status_segs(s).len() >= 2
}

/// Whether parsing gets to the point where it reads the third field.
pub open spec fn reaches_time(s: Seq<char>) -> bool {
    reaches_percent(s) && is_u32_text(percent_text(s)) && status_text(s) != "Not charging"@
}

/// Whether a report line parses in full.
pub open spec fn parse_ok(s: Seq<char>) -> bool {
    &&& reaches_percent(s)
    &&& is_u32_text(percent_text(s))
    &&& (status_text(s) == "Not charging"@ || (is_hms_text(time_text(s)) && (status_text(s)
        == "Charging"@ || status_text(s) == "Discharging"@)))
}

/// The status of a report line that parses in full.
pub open spec fn parsed_status(s: Seq<char>) -> ChargeStatus
    recommends
        parse_ok(s),
{
    if status_text(s) == "Not charging"@ {
        ChargeStatus::NotCharging
    } else if status_text(s) == "Charging"@ {
        ChargeStatus::Charging { time_remain: Some(hms_of_text(time_text(s))) }
    } else {
        ChargeStatus::Discharging { time_remain: Some(hms_of_text(time_text(s))) }
    }
}

/// Copies a character vector.
fn copy_chars(v: &Vec<char>) -> (r: Vec<char>)
    ensures
        r@ == v@,
{
    let mut r: Vec<char> = Vec::new();
    let mut i: usize = 0;
    while i < v.len()
        invariant
            0 <= i <= v@.len(),
            r@ =~= v@.take(i as int),
        decreases v@.len() - i,
    {
        r.push(v[i]);
        i = i + 1;
        proof {
            assert(r@ =~= v@.take(i as int));
        }
    }
    proof {
        assert(r@ =~= v@);
    }
    r
}

/// Parses one report line of the `acpi` command.
///
/// The line is read as comma-separated fields: the first holds the
/// battery id and the charge status around a colon, the second the
/// percent, the third the remaining time. Each error names the first part
/// that failed, in reading order. The input is returned unchanged in
/// `output`.
pub fn parse(res: &str) -> (r: Result<Data, ParseError>)
    requires
        reaches_percent(res@) ==> comma_fields(res@).len() >= 2,
        reaches_time(res@) ==> comma_fields(res@).len() >= 3,
    ensures
        r != Err::<Data, ParseError>(ParseError::ParseBatteryId),
        (r == Err::<Data, ParseError>(ParseError::BatteryIdNotI32) <==> !is_i32_text(id_text(res@))),
        (r == Err::<Data, ParseError>(ParseError::ParseChargeStatus) <==> is_i32_text(id_text(res@))
            && id_status_segs(res@).len() < 2),
        (r == Err::<Data, ParseError>(ParseError::ParsePercent) <==> reaches_percent(res@) && !is_u32_text(
            percent_text(res@),
        )),
        (r == Err::<Data, ParseError>(ParseError::TimeRemainFormat) <==> reaches_time(res@) && !is_hms_text(
            time_text(res@),
        )),
        (r == Err::<Data, ParseError>(ParseError::ParseTimeRemain) <==> reaches_time(res@) && is_hms_text(
            time_text(res@),
        ) && status_text(res@) != "Charging"@ && status_text(res@) != "Discharging"@),
        (r is Ok <==> parse_ok(res@)),
        r is Ok ==> r->Ok_0.output@ == res@,
        r is Ok ==> r->Ok_0.battery_id == i32_text_val(id_text(res@)),
        r is Ok ==> r->Ok_0.percent == u32_text_val(percent_text(res@)),
        r is Ok ==> r->Ok_0.status == parsed_status(res@),
{
    let cs = chars_of(res);
    let raw_fields = split_chars(&cs, ',');
    let mut fields: Vec<Vec<char>> = Vec::new();
    let mut fi: usize = 0;
    while fi < raw_fields.len()
        invariant
            0 <= fi <= raw_fields@.len(),
            raw_fields.deep_view() == spec_split(res@, ','),
            fields@.len() == fi,
            forall|k: int| 0 <= k < fi ==> #[trigger] fields@[k]@ == comma_fields(res@)[k],
        decreases raw_fields@.len() - fi,
    {
        proof {
            assert(raw_fields@[fi as int].deep_view() =~= raw_fields@[fi as int]@);
            assert(raw_fields@[fi as int]@ == spec_split(res@, ',')[fi as int]);
            assert(comma_fields(res@)[fi as int] == trim_spec(spec_split(res@, ',')[fi as int]));
        }
        fields.push(trim_chars(&raw_fields[fi]));
        fi = fi + 1;
    }
    proof {
        assert(fields@.len() == comma_fields(res@).len());
        assert(fields@.len() >= 1);
    }
    proof {
        crate::text::lemma_spec_split_len(res@, ',');
        reveal_strlit("Battery ");
    }
    let raw_segs = split_chars(&fields[0], ':');
    let bat_pat = chars_of("Battery ");
    let empty_rep: Vec<char> = Vec::new();
    let mut segs: Vec<Vec<char>> = Vec::new();
    let mut si: usize = 0;
    while si < raw_segs.len()
        invariant
            0 <= si <= raw_segs@.len(),
            raw_segs.deep_view() == spec_split(comma_fields(res@)[0], ':'),
            bat_pat@ == "Battery "@,
            bat_pat@.len() > 0,
            empty_rep@ == Seq::<char>::empty(),
            segs@.len() == si,
            forall|k: int| 0 <= k < si ==> #[trigger] segs@[k]@ == id_status_segs(res@)[k],
        decreases raw_segs@.len() - si,
    {
        proof {
            assert(raw_segs@[si as int].deep_view() =~= raw_segs@[si as int]@);
            assert(raw_segs@[si as int]@ == spec_split(comma_fields(res@)[0], ':')[si as int]);
            assert(id_status_segs(res@)[si as int] == seg_transform(raw_segs@[si as int]@));
        }
        let seg = &raw_segs[si];
        if contains_chars(seg, &bat_pat) {
            segs.push(replace_chars(seg, &bat_pat, &empty_rep));
        } else {
            segs.push(copy_chars(seg));
        }
        si = si + 1;
    }
    proof {
        assert(segs@.len() == id_status_segs(res@).len());
        assert(segs@.len() >= 1);
        assert(segs@[0]@ == id_text(res@));
    }
    let battery_id = match parse_i32_chars(&segs[0]) {
        Some(id) => id,
        None => {
            return Err(ParseError::BatteryIdNotI32);
        },
    };
    if segs.len() < 2 {
        return Err(ParseError::ParseChargeStatus);
    }
    let status_string = trim_chars(&segs[1]);
    proof {
        assert(status_string@ == status_text(res@));
        assert(reaches_percent(res@));
        assert(fields@.len() >= 2);
        assert(fields@[1]@ == comma_fields(res@)[1]);
    }
    let percent_chars = remove_char_vec(&fields[1], '%');
    let percent = match parse_u32_chars(&percent_chars) {
        Some(p) => p,
        None => {
            return Err(ParseError::ParsePercent);
        },
    };
    let not_charging = chars_eq_str(&status_string, "Not charging");
    let mut time_remain: Option<TimeOfDay> = None;
    if !not_charging {
        proof {
            assert(reaches_time(res@));
            assert(fields@.len() >= 3);
            assert(fields@[2]@ == comma_fields(res@)[2]);
        }
        let pieces = split_chars(&fields[2], ' ');
        proof {
            assert(pieces@[0]@ == time_text(res@));
        }
        match parse_hms_chars(&pieces[0]) {
            Some(t) => {
                time_remain = Some(t);
            },
            None => {
                return Err(ParseError::TimeRemainFormat);
            },
        }
    }
    if not_charging {
        Ok(Data { output: res.to_owned(), battery_id, percent, status: ChargeStatus::NotCharging })
    } else if chars_eq_str(&status_string, "Charging") {
        Ok(
            Data {
                output: res.to_owned(),
                battery_id,
                percent,
                status: ChargeStatus::Charging { time_remain },
            },
        )
    } else if chars_eq_str(&status_string, "Discharging") {
        Ok(
            Data {
                output: res.to_owned(),
                battery_id,
                percent,
                status: ChargeStatus::Discharging { time_remain },
            },
        )
    } else {
        Err(ParseError::ParseTimeRemain)
    }
}

} // verus!
