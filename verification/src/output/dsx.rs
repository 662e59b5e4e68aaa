//! Steam DSX UDP v2 packets.
//!
//! Each trigger is sent as its own JSON packet
//! `{"instructions":[{"type":1,"parameters":[controller,trigger,mode,...]}]}`.
//! Internal levels `0..=10` are rescaled to the protocol ranges here.

use vstd::prelude::*;
use vstd::string::StringExecFns;

use crate::effects::{TriggerEffect, TriggerOutputFrame};
use crate::text::{decimal, trim_str, trimmed};

verus! {

/// DSX trigger number of L2.
pub const LEFT_TRIGGER: u8 = 1;

/// DSX trigger number of R2.
pub const RIGHT_TRIGGER: u8 = 2;

/// Port used when neither the settings nor the DSX port file give one.
pub const FALLBACK_PORT: u16 = 6969;

/// The values `0..=10` mapped onto `0..=maximum`, rounding halves up.
pub open spec fn scaled(value: u8, maximum: u16) -> int {
    let v: int = if value <= 10 { value as int } else { 10 };
    (v * maximum + 5) / 10
}

/// The capped level times `maximum`, before rounding.
pub open spec fn scaled_product(value: u8, maximum: u16) -> int {
    (if value <= 10 { value as int } else { 10 }) * maximum
}

/// Rescales an internal level (capped at 10) to `0..=maximum`.
///
/// The computation is done in `u16`, so the product plus the rounding term
/// must fit in a `u16`; it does for every maximum up to 6553.
pub fn scale(value: u8, maximum: u16) -> (r: u16)
    requires
        scaled_product(value, maximum) + 5 <= u16::MAX,
    ensures
        r == scaled(value, maximum),
        r <= maximum,
{
    let v: u16 = if value <= 10 { value as u16 } else { 10 };
    assert((v * maximum + 5) / 10 <= maximum) by (nonlinear_arith)
        requires
            v <= 10,
    ;
    (v * maximum + 5) / 10
}

/// Rescaling keeps the order of levels, sends level 0 to 0 and level 10 to
/// the protocol maximum, so the full internal range covers the full protocol
/// range and a stronger effect never encodes weaker.
pub proof fn lemma_scale_monotone(a: u8, b: u8, maximum: u16)
    requires
        a <= b,
    ensures
        scaled(a, maximum) <= scaled(b, maximum),
        scaled(0, maximum) == 0,
        scaled(10, maximum) == maximum,
{
    let va: int = if a <= 10 { a as int } else { 10 };
    let vb: int = if b <= 10 { b as int } else { 10 };
    let m = maximum as int;
    assert(va * m <= vb * m) by (nonlinear_arith)
        requires
            va <= vb,
            0 <= m,
    ;
    assert((va * m + 5) / 10 <= (vb * m + 5) / 10) by (nonlinear_arith)
        requires
            va * m <= vb * m,
    ;
}

/// The DSX parameter list for one trigger.
pub open spec fn trigger_parameters(controller_index: u8, trigger: u8, effect: TriggerEffect) -> Seq<
    u16,
> {
    let head = seq![controller_index as u16, trigger as u16];
    match effect {
        TriggerEffect::Normal => head.push(0),
        TriggerEffect::Resistance { start, force } => head + seq![
            13u16,
            (if start <= 9 { start } else { 9u8 }) as u16,
            scaled(force, 8) as u16,
        ],
        TriggerEffect::Pulse { .. } => head.push(11),
        TriggerEffect::Vibrate { force, .. } => head + seq![8u16, scaled(force, 255) as u16],
    }
}

/// Encoded parameters stay within the DSX ranges: a resistance start of at
/// most 9 and force of at most 8, a vibration intensity of at most 255, and a
/// mode among 0 (normal), 13 (resistance), 11 (pulse) and 8 (vibration).
pub proof fn lemma_parameters_in_protocol_range(controller_index: u8, trigger: u8, effect: TriggerEffect)
    ensures
        ({
            let p = trigger_parameters(controller_index, trigger, effect);
            &&& p.len() >= 3
            &&& p[0] == controller_index as u16 && p[1] == trigger as u16
            &&& p[2] == 0 || p[2] == 13 || p[2] == 11 || p[2] == 8
            &&& p[2] == 13 ==> p.len() == 5 && p[3] <= 9 && p[4] <= 8
            &&& p[2] == 8 ==> p.len() == 4 && p[3] <= 255
            &&& (p[2] == 0 || p[2] == 11) ==> p.len() == 3
        }),
{
    match effect {
        TriggerEffect::Resistance { start, force } => {
            lemma_scale_monotone(if force <= 10 { force } else { 10 }, 10, 8);
        },
        TriggerEffect::Vibrate { force, .. } => {
            lemma_scale_monotone(if force <= 10 { force } else { 10 }, 10, 255);
        },
        _ => {},
    }
}

/// The command sent for an effect is the same on both triggers: the
/// parameter lists for L2 and R2 differ only in the trigger number. The mode is
/// chosen by the effect's kind alone: 0 for normal, 13 for resistance, 11 for a
/// pulse and 8 for a vibration.
pub proof fn lemma_mode_depends_only_on_variant(
    controller_index: u8,
    trigger: u8,
    other_trigger: u8,
    effect: TriggerEffect,
)
    ensures
        ({
            let p = trigger_parameters(controller_index, trigger, effect);
            let q = trigger_parameters(controller_index, other_trigger, effect);
            &&& p.len() == q.len()
            &&& p[1] == trigger as u16 && q[1] == other_trigger as u16
            &&& forall|i: int| 0 <= i < p.len() && i != 1 ==> p[i] == q[i]
            &&& effect is Normal ==> p.len() == 3 && p[2] == 0
            &&& effect is Resistance ==> p.len() == 5 && p[2] == 13
            &&& effect is Pulse ==> p.len() == 3 && p[2] == 11
            &&& effect is Vibrate ==> p.len() == 4 && p[2] == 8
        }),
{
}

/// A frame with both triggers released (as sent while the player is not
/// driving) encodes as the normal command, mode 0, on both triggers.
pub proof fn lemma_released_frame_encodes_normal(controller_index: u8)
    ensures
        trigger_parameters(controller_index, LEFT_TRIGGER, TriggerEffect::Normal) == seq![
            controller_index as u16,
            LEFT_TRIGGER as u16,
            0u16,
        ],
        trigger_parameters(controller_index, RIGHT_TRIGGER, TriggerEffect::Normal) == seq![
            controller_index as u16,
            RIGHT_TRIGGER as u16,
            0u16,
        ],
{
    assert(trigger_parameters(controller_index, LEFT_TRIGGER, TriggerEffect::Normal) =~= seq![
        controller_index as u16,
        LEFT_TRIGGER as u16,
        0u16,
    ]);
    assert(trigger_parameters(controller_index, RIGHT_TRIGGER, TriggerEffect::Normal) =~= seq![
        controller_index as u16,
        RIGHT_TRIGGER as u16,
        0u16,
    ]);
}

/// The comma-separated decimal renderings of `values`.
pub open spec fn joined_numbers(values: Seq<u16>) -> Seq<char>
    decreases values.len(),
{
    if values.len() == 0 {
        Seq::empty()
    } else if values.len() == 1 {
        decimal(values[0] as nat)
    } else {
        joined_numbers(values.drop_last()) + ","@ + decimal(values.last() as nat)
    }
}

/// The compact JSON array of `values`.
pub open spec fn json_number_array(values: Seq<u16>) -> Seq<char> {
    "["@ + joined_numbers(values) + "]"@
}

/// The JSON text of a DSX packet with one type-1 instruction.
pub open spec fn packet_text(parameters: Seq<u16>) -> Seq<char> {
    "{\"instructions\":[{\"type\":1,\"parameters\":"@ + json_number_array(parameters) + "}]}"@
}

#[verifier::external_type_specification]
#[verifier::external_body]
pub struct ExJsonError(serde_json::Error);

/// `serde_json::to_string` applied to a `Vec<u16>`.
///
/// The contract states what serde_json's compact serializer writes for a
/// sequence of `u16`: `[`, the elements rendered by `itoa` in decimal and
/// separated by `,`, then `]`. Writing into its in-memory buffer cannot fail,
/// so the call returns `Ok`.
#[verifier::external_body]
fn json_array_of(values: &Vec<u16>) -> (r: Result<String, serde_json::Error>)
    ensures
        r is Ok,
        r->Ok_0@ == json_number_array(values@),
{
    serde_json::to_string(values)
}

/// Whether every character of `s` is an ASCII digit.
pub open spec fn all_ascii_digits(s: Seq<char>) -> bool {
    forall|i: int| 0 <= i < s.len() ==> ('0' as int) <= (#[trigger] s[i] as int) <= ('9' as int)
}

/// The number written by the ASCII digits `s`.
pub open spec fn digits_value(s: Seq<char>) -> nat
    decreases s.len(),
{
    if s.len() == 0 {
        0
    } else {
        digits_value(s.drop_last()) * 10 + ((s.last() as int) - ('0' as int)) as nat
    }
}

/// What `u16::from_str` accepts: an optional `+` followed by one or more ASCII
/// digits whose value fits in a `u16`.
pub open spec fn parsed_u16(s: Seq<char>) -> Option<u16> {
    let digits = if s.len() > 0 && s[0] == '+' { s.drop_first() } else { s };
    if digits.len() > 0 && all_ascii_digits(digits) && digits_value(digits) <= 65535 {
        Some(digits_value(digits) as u16)
    } else {
        None
    }
}

/// `str::parse::<u16>`, with the error mapped to `None`.
///
/// The contract restates the documented grammar of `u16::from_str`: an optional
/// `+` and then only ASCII digits, with overflow rejected.
#[verifier::external_body]
fn parse_u16(text: &str) -> (r: Option<u16>)
    ensures
        r == parsed_u16(text@),
{
    text.parse::<u16>().ok()
}

/// The port written in the DSX port file, if the text (ignoring surrounding
/// white space) is a valid port number.
pub fn port_from_file_text(text: &str) -> (r: Option<u16>)
    ensures
        r == parsed_u16(trimmed(text@)),
{
    parse_u16(trim_str(text))
}

/// The port that [`resolve_port`] picks.
pub open spec fn resolved_port(configured: Option<u16>, port_file: Option<Seq<char>>) -> u16 {
    match configured {
        Some(port) => port,
        None => match port_file {
            Some(text) => match parsed_u16(trimmed(text)) {
                Some(port) => port,
                None => FALLBACK_PORT,
            },
            None => FALLBACK_PORT,
        },
    }
}

/// Port precedence: the command-line port, then the configured port, then the
/// port file, then the fallback port.
pub proof fn lemma_port_precedence(
    cli_port: Option<u16>,
    config_port: Option<u16>,
    port_file: Option<Seq<char>>,
)
    ensures
        ({
            let chosen = resolved_port(
                match cli_port {
                    Some(p) => Some(p),
                    None => config_port,
                },
                port_file,
            );
            &&& cli_port matches Some(p) ==> chosen == p
            &&& cli_port is None ==> (config_port matches Some(p) ==> chosen == p)
            &&& cli_port is None && config_port is None ==> (port_file matches Some(text) ==> (
            parsed_u16(trimmed(text)) matches Some(p) ==> chosen == p))
            &&& cli_port is None && config_port is None && (port_file is None || parsed_u16(
                trimmed(port_file->Some_0),
            ) is None) ==> chosen == FALLBACK_PORT
        }),
{
}

/// The DSX port: the configured one, else the one in the DSX port file, else
/// the fallback port. `port_file` is the text of the port file, if it could be
/// read; it is only consulted when no port is configured.
pub fn resolve_port(configured: Option<u16>, port_file: Option<&str>) -> (r: u16)
    ensures
        r == resolved_port(
            configured,
            match port_file {
                Some(t) => Some(t@),
                None => None,
            },
        ),
{
    if let Some(port) = configured {
        return port;
    }
    match port_file {
        Some(text) => match port_from_file_text(text) {
            Some(port) => port,
            None => FALLBACK_PORT,
        },
        None => FALLBACK_PORT,
    }
}

/// Why a packet could not be produced.
#[derive(Debug, Clone, Copy, PartialEq, Eq)]
pub enum EncodeError {
    Serialize,
}

/// Encodes trigger frames as DSX UDP v2 packets for one controller.
#[derive(Debug, Clone, PartialEq, Eq)]
pub struct DsxPacketEncoder {
    pub controller_index: u8,
}

impl DsxPacketEncoder {
    pub fn new(controller_index: u8) -> (r: Self)
        ensures
            r.controller_index == controller_index,
    {
        DsxPacketEncoder { controller_index }
    }

    /// The L2 packet then the R2 packet.
    pub fn encode_frame(&self, frame: &TriggerOutputFrame) -> (r: Result<[String; 2], EncodeError>)
        ensures
            r matches Ok(packets) && packets[0]@ == packet_text(
                trigger_parameters(self.controller_index, LEFT_TRIGGER, frame.left),
            ) && packets[1]@ == packet_text(
                trigger_parameters(self.controller_index, RIGHT_TRIGGER, frame.right),
            ),
    {
        let left = self.encode_trigger(LEFT_TRIGGER, &frame.left)?;
        let right = self.encode_trigger(RIGHT_TRIGGER, &frame.right)?;
        Ok([left, right])
    }

    fn encode_trigger(&self, trigger: u8, effect: &TriggerEffect) -> (r: Result<String, EncodeError>)
        ensures
            r matches Ok(s) && s@ == packet_text(
                trigger_parameters(self.controller_index, trigger, *effect),
            ),
    {
        let mut parameters: Vec<u16> = Vec::new();
        parameters.push(self.controller_index as u16);
        parameters.push(trigger as u16);
        match effect {
            TriggerEffect::Normal => parameters.push(0),
            TriggerEffect::Resistance { start, force } => {
                parameters.push(13);
                parameters.push(if *start <= 9 { *start as u16 } else { 9 });
                parameters.push(scale(*force, 8));
            },
            TriggerEffect::Pulse { .. } => {
                // Steam DSX v2's VibrateTriggerPulse preset does not expose the
                // internal start/force/frequency values.
                parameters.push(11);
            },
            TriggerEffect::Vibrate { force, .. } => {
                // Steam DSX v2 VibrateTrigger accepts only an intensity byte.
                parameters.push(8);
                parameters.push(scale(*force, 255));
            },
        }
        assert(parameters@ == trigger_parameters(self.controller_index, trigger, *effect));
        let array = match json_array_of(&parameters) {
            Ok(text) => text,
            Err(_) => {
                return Err(EncodeError::Serialize);
            },
        };
        let mut packet = String::from_str("{\"instructions\":[{\"type\":1,\"parameters\":");
        packet.append(array.as_str());
        packet.append("}]}");
        Ok(packet)
    }
}

} // verus!
