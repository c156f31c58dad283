//! What the manager asks of Home Assistant and reads from its answers: entity
//! names, service-call bodies, the car's state, and which hour a solar sample
//! belongs to.
use vstd::prelude::*;

use crate::text::{
    ascii_bytes, decimal, lemma_decimal_reads_back, parse_unsigned_field, push_decimal,
    unsigned_value,
};

verus! {

/// A state sample of a Home Assistant entity.
pub struct HassSample {
    pub state: String,
    pub last_updated: String,
}

/// A sample of the solar output history.
pub struct PvDataSample {
    pub state: String,
    pub last_updated: String,
}

/// The car as Home Assistant reports it.
#[derive(Debug, Clone, Copy, PartialEq, Eq, Structural)]
pub struct EvStatus {
    pub battery_percent: u8,
    pub at_home: bool,
    pub plugged_in: bool,
}

/// Reads the car's state from its battery level and the location and plug
/// samples: at home when the location reads `home`, plugged in when the plug
/// reads `on`.
pub fn ev_status(battery_percent: u8, location: &HassSample, plug: &HassSample) -> (r: EvStatus)
    ensures
        r.battery_percent == battery_percent,
        r.at_home == (location.state@ == "home"@),
        r.plugged_in == (plug.state@ == "on"@),
{
    let home = String::from_str("home");
    let on = String::from_str("on");
    EvStatus {
        battery_percent,
        at_home: location.state == home,
        plugged_in: plug.state == on,
    }
}

fn concat3(a: &str, b: &str, c: &str) -> (r: String)
    ensures
        r@ == a@ + b@ + c@,
{
    let mut s = String::from_str(a);
    s.append(b);
    s.append(c);
    s
}

/// Entity of the car's battery level.
pub fn ev_battery_level_entity(ev_name: &str) -> (r: String)
    ensures
        r@ == "sensor."@ + ev_name@ + "_battery_level"@,
{
    concat3("sensor.", ev_name, "_battery_level")
}

/// Entity of the car's location.
pub fn ev_location_entity(ev_name: &str) -> (r: String)
    ensures
        r@ == "device_tracker."@ + ev_name@ + "_location"@,
{
    concat3("device_tracker.", ev_name, "_location")
}

/// Entity of the car's charging plug.
pub fn ev_plug_entity(ev_name: &str) -> (r: String)
    ensures
        r@ == "sensor."@ + ev_name@ + "_plug"@,
{
    concat3("sensor.", ev_name, "_plug")
}

/// Entity of the home battery's state of charge.
pub fn battery_soc_entity(battery_name: &str) -> (r: String)
    ensures
        r@ == "sensor."@ + battery_name@ + "_power_battery_soc"@,
{
    concat3("sensor.", battery_name, "_power_battery_soc")
}

/// Entity of the solar output that the battery's inverter measures.
pub fn pv_sum_entity(battery_name: &str) -> (r: String)
    ensures
        r@ == "sensor."@ + battery_name@ + "_power_pv_sum"@,
{
    concat3("sensor.", battery_name, "_power_pv_sum")
}

/// Body of the `number.set_value` call that sets the battery's minimum charge.
pub open spec fn min_soc_body(battery_name: Seq<char>, percent: nat) -> Seq<char> {
    "{\n            \"entity_id\": \"number."@ + battery_name + "\",\n            \"value\": "@
        + decimal(percent) + "\n        }"@
}

/// Body of the `switch` call for the car charger.
pub open spec fn charger_body(charger_name: Seq<char>) -> Seq<char> {
    "{\n            \"entity_id\": \"switch."@ + charger_name + "\"\n        }"@
}

/// Builds the body that sets the battery's minimum charge to `percent`.
pub fn min_soc_request_body(battery_name: &str, percent: u8) -> (r: String)
    ensures
        r@ == min_soc_body(battery_name@, percent as nat),
{
    let mut s = String::from_str("{\n            \"entity_id\": \"number.");
    s.append(battery_name);
    s.append("\",\n            \"value\": ");
    push_decimal(&mut s, percent as u64);
    s.append("\n        }");
    assert(s@ =~= min_soc_body(battery_name@, percent as nat));
    s
}

/// Builds the body of the charger switch call.
pub fn charger_request_body(charger_name: &str) -> (r: String)
    ensures
        r@ == charger_body(charger_name@),
{
    let mut s = String::from_str("{\n            \"entity_id\": \"switch.");
    s.append(charger_name);
    s.append("\"\n        }");
    assert(s@ =~= charger_body(charger_name@));
    s
}

/// The `switch` service that puts the charger in the wanted state.
pub fn charger_service(on: bool) -> (r: &'static str)
    ensures
        r@ == (if on {
            "turn_on"@
        } else {
            "turn_off"@
        }),
{
    if on {
        "turn_on"
    } else {
        "turn_off"
    }
}

/// Where a solar sample goes when the hourly totals are being filled.
#[derive(Debug, Clone, Copy, PartialEq, Eq, Structural)]
pub enum SampleSlot {
    /// Into the hour being filled.
    SameHour,
    /// Split between the hour being filled and the next, which becomes current.
    NextHour,
    /// Neither: the sample is skipped.
    Gap,
}

/// Places a sample taken at `sample_hour` while hour `current_hour` is being
/// filled. A sample is split into the next hour only when that hour exists.
pub fn sample_slot(current_hour: usize, sample_hour: u8) -> (r: SampleSlot)
    requires
        current_hour < 24,
        sample_hour < 24,
    ensures
        r == SampleSlot::SameHour <==> sample_hour == current_hour,
        r == SampleSlot::NextHour <==> sample_hour == current_hour + 1,
        r == SampleSlot::NextHour ==> current_hour + 1 < 24,
{
    if sample_hour as usize == current_hour {
        SampleSlot::SameHour
    } else if sample_hour as usize == current_hour + 1 {
        SampleSlot::NextHour
    } else {
        SampleSlot::Gap
    }
}

/// Address of the Home Assistant server: `http://`, the host, `:` and the port.
pub fn hass_base_address(host: &str, port: u16) -> (r: String)
    ensures
        r@ == "http://"@ + host@ + ":"@ + decimal(port as nat),
{
    let mut s = String::from_str("http://");
    s.append(host);
    s.append(":");
    push_decimal(&mut s, port as u64);
    assert(s@ =~= "http://"@ + host@ + ":"@ + decimal(port as nat));
    s
}

/// Reads the port of the Home Assistant server as `u16`'s `from_str` does.
pub fn parse_port(text: &str) -> (r: Option<u16>)
    ensures
        r is Some <==> (unsigned_value(vstd::utf8::encode_utf8(text@)) matches Some(v) && v
            <= u16::MAX),
        r matches Some(p) ==> unsigned_value(vstd::utf8::encode_utf8(text@)) == Some(p as nat),
{
    let bytes = text.as_bytes();
    assert(bytes@.subrange(0, bytes@.len() as int) =~= bytes@);
    match parse_unsigned_field(bytes, 0, bytes.len(), 65535) {
        Some(p) => Some(p as u16),
        None => None,
    }
}

/// The minimum-charge body names the whole battery entity and the whole
/// percentage: it is the body for an empty name with the name, unchanged,
/// inserted right after `number.` (character 35), and the value after the
/// name reads back as the percentage.
pub proof fn lemma_min_soc_body_carries_name_and_value(name: Seq<char>, percent: nat)
    ensures
        ({
            let b = min_soc_body(name, percent);
            let e = min_soc_body(Seq::<char>::empty(), percent);
            let n = name.len() as int;
            let v = decimal(percent).len() as int;
            &&& b.len() == e.len() + n
            &&& b.subrange(0, 35) == e.subrange(0, 35)
            &&& b.subrange(28, 35) == seq!['n', 'u', 'm', 'b', 'e', 'r', '.']
            &&& b.subrange(35, 35 + n) == name
            &&& b.subrange(35 + n, b.len() as int) == e.subrange(35, e.len() as int)
            &&& unsigned_value(ascii_bytes(b.subrange(35 + n + 24, 35 + n + 24 + v))) == Some(
                percent,
            )
            &&& b[35 + n + 24 + v] == '\n'
        }),
{
    let prefix = "{\n            \"entity_id\": \"number."@;
    let middle = "\",\n            \"value\": "@;
    let suffix = "\n        }"@;
    reveal_strlit("{\n            \"entity_id\": \"number.");
    reveal_strlit("\",\n            \"value\": ");
    reveal_strlit("\n        }");
    assert(prefix.len() == 35);
    assert(middle.len() == 24);
    assert(suffix.len() == 10);
    lemma_decimal_reads_back(percent);
    let b = min_soc_body(name, percent);
    let e = min_soc_body(Seq::<char>::empty(), percent);
    let n = name.len() as int;
    let v = decimal(percent).len() as int;
    assert(b =~= prefix + name + middle + decimal(percent) + suffix);
    assert(e =~= prefix + middle + decimal(percent) + suffix);
    assert(b.subrange(0, 35) =~= prefix);
    assert(e.subrange(0, 35) =~= prefix);
    assert(prefix.subrange(28, 35) =~= seq!['n', 'u', 'm', 'b', 'e', 'r', '.']);
    assert(b.subrange(28, 35) =~= prefix.subrange(28, 35));
    assert(b.subrange(35, 35 + n) =~= name);
    assert(b.subrange(35 + n, b.len() as int) =~= middle + decimal(percent) + suffix);
    assert(e.subrange(35, e.len() as int) =~= middle + decimal(percent) + suffix);
    assert(b.subrange(35 + n + 24, 35 + n + 24 + v) =~= decimal(percent));
    assert(b[35 + n + 24 + v] == suffix[0]);
}

/// The charger body names the whole charger entity: it is the body for an
/// empty name with the name, unchanged, inserted right after `switch.`
/// (character 35).
pub proof fn lemma_charger_body_carries_name(name: Seq<char>)
    ensures
        ({
            let b = charger_body(name);
            let e = charger_body(Seq::<char>::empty());
            let n = name.len() as int;
            &&& b.len() == e.len() + n
            &&& b.subrange(0, 35) == e.subrange(0, 35)
            &&& b.subrange(28, 35) == seq!['s', 'w', 'i', 't', 'c', 'h', '.']
            &&& b.subrange(35, 35 + n) == name
            &&& b.subrange(35 + n, b.len() as int) == e.subrange(35, e.len() as int)
        }),
{
    let prefix = "{\n            \"entity_id\": \"switch."@;
    let suffix = "\"\n        }"@;
    reveal_strlit("{\n            \"entity_id\": \"switch.");
    reveal_strlit("\"\n        }");
    assert(prefix.len() == 35);
    let b = charger_body(name);
    let e = charger_body(Seq::<char>::empty());
    let n = name.len() as int;
    assert(b =~= prefix + name + suffix);
    assert(e =~= prefix + suffix);
    assert(b.subrange(0, 35) =~= prefix);
    assert(e.subrange(0, 35) =~= prefix);
    assert(prefix.subrange(28, 35) =~= seq!['s', 'w', 'i', 't', 'c', 'h', '.']);
    assert(b.subrange(28, 35) =~= prefix.subrange(28, 35));
    assert(b.subrange(35, 35 + n) =~= name);
    assert(b.subrange(35 + n, b.len() as int) =~= suffix);
    assert(e.subrange(35, e.len() as int) =~= suffix);
}

} // verus!
