//! Alert text: a display name for every [`AttackType`] and the details line
//! of an alert record, falling back to a fixed line for a category whose
//! verdict carried no message.

use vstd::prelude::*;

use crate::detector::AttackType;

verus! {

/// The canonical name of each category, as an alert record shows it.
pub open spec fn attack_type_label_spec(a: AttackType) -> Seq<char> {
    match a {
        AttackType::TooManyConnectionAttempts => "TooManyConnectionAttempts"@,
        AttackType::SynFlood => "SynFlood"@,
        AttackType::PortScan => "PortScan"@,
        AttackType::SuspiciousTcpFlags => "SuspiciousTcpFlags"@,
        AttackType::UdpFlood => "UdpFlood"@,
        AttackType::Unknown => "Unknown"@,
    }
}

/// The default details line of each category, used when the engine attached
/// no message of its own: the canonical message of the category's rule. The
/// flag-sanity rules share one category under two messages, so that category
/// falls back to a line of its own covering both; an unknown category has no
/// rule and gets a fixed line.
pub open spec fn default_details_spec(a: AttackType) -> Seq<char> {
    match a {
        AttackType::PortScan => crate::detector::port_scan_message(),
        AttackType::SynFlood => crate::detector::syn_flood_message(),
        AttackType::UdpFlood => crate::detector::udp_flood_message(),
        AttackType::SuspiciousTcpFlags => "Detected suspicious TCP flag combinations (e.g., SYN+FIN, or no flags at all)"@,
        AttackType::TooManyConnectionAttempts => crate::detector::connection_attempts_message(),
        AttackType::Unknown => "Unknown attack detected"@,
    }
}

/// The details line chosen for an alert: the engine's message when it
/// supplied one, the category's default otherwise. An unknown category always
/// gets its fixed line, whatever was supplied.
pub open spec fn alert_details_spec(a: AttackType, details: Option<Seq<char>>) -> Seq<char> {
    if a is Unknown {
        default_details_spec(a)
    } else {
        match details {
            Some(d) => d,
            None => default_details_spec(a),
        }
    }
}

/// The canonical name of a category, for the alert record.
pub fn attack_type_label(attack_type: &AttackType) -> (r: String)
    ensures
        r@ == attack_type_label_spec(*attack_type),
{
    match attack_type {
        AttackType::TooManyConnectionAttempts => "TooManyConnectionAttempts".to_string(),
        AttackType::SynFlood => "SynFlood".to_string(),
        AttackType::PortScan => "PortScan".to_string(),
        AttackType::SuspiciousTcpFlags => "SuspiciousTcpFlags".to_string(),
        AttackType::UdpFlood => "UdpFlood".to_string(),
        AttackType::Unknown => "Unknown".to_string(),
    }
}

/// The default details line of a category.
pub fn default_alert_details(attack_type: &AttackType) -> (r: String)
    ensures
        r@ == default_details_spec(*attack_type),
{
    match attack_type {
        AttackType::PortScan => "Too many unique destination ports (port scan) from the same IP.".to_string(),
        AttackType::SynFlood => "Potential SYN flood detected.".to_string(),
        AttackType::UdpFlood => "Potential UDP flood detected.".to_string(),
        AttackType::SuspiciousTcpFlags => "Detected suspicious TCP flag combinations (e.g., SYN+FIN, or no flags at all)".to_string(),
        AttackType::TooManyConnectionAttempts => "Too many TCP connection attempts from the same IP.".to_string(),
        AttackType::Unknown => "Unknown attack detected".to_string(),
    }
}

/// The details line for one alert, given the engine's optional message.
pub fn alert_details(attack_type: &AttackType, details: Option<String>) -> (r: String)
    ensures
        r@ == alert_details_spec(
            *attack_type,
            match details {
                Some(d) => Some(d@),
                None => None::<Seq<char>>,
            },
        ),
{
    match attack_type {
        AttackType::Unknown => "Unknown attack detected".to_string(),
        _ => match details {
            Some(d) => d,
            None => default_alert_details(attack_type),
        },
    }
}

} // verus!
