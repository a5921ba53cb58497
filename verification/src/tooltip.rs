//! The text shown when the pointer rests on the tray icon.
use vstd::prelude::*;
use vstd::string::*;

use crate::text::owned;
use crate::verge::{flag, IVerge};

verus! {

/// How a switch reads in the tooltip.
pub open spec fn spec_switch_label(on: bool) -> Seq<char> {
    if on {
        "on"@
    } else {
        "off"@
    }
}

/// How a switch reads in the tooltip: `on` or `off`.
pub fn switch_label(on: bool) -> (r: &'static str)
    ensures
        r@ == spec_switch_label(on),
{
    if on {
        "on"
    } else {
        "off"
    }
}

/// The keys in the translation table of the three labels of the tooltip: system proxy,
/// TUN mode, profile.
pub fn tooltip_label_keys() -> (r: (&'static str, &'static str, &'static str))
    ensures
        r.0@ == "SysProxy"@,
        r.1@ == "TUN"@,
        r.2@ == "Profile"@,
{
    ("SysProxy", "TUN", "Profile")
}

/// The name shown for the current profile: its name, or `None` when there is no current
/// profile or it has no name.
pub open spec fn spec_current_profile_name(current: Option<Option<Seq<char>>>) -> Seq<char> {
    match current {
        Some(Some(name)) => name,
        _ => "None"@,
    }
}

/// The name shown for the current profile, given the name of the current profile when
/// there is one (itself optional).
pub fn current_profile_name(current: Option<Option<String>>) -> (r: String)
    ensures
        r@ == spec_current_profile_name(
            match current {
                Some(Some(n)) => Some(Some(n@)),
                Some(None) => Some(None),
                None => None,
            },
        ),
{
    match current {
        Some(Some(name)) => name,
        _ => owned("None"),
    }
}

/// The tooltip: the version on the first line, then one line per label.
pub open spec fn spec_tooltip(
    version: Seq<char>,
    sysproxy_label: Seq<char>,
    system_proxy: bool,
    tun_label: Seq<char>,
    tun_mode: bool,
    profile_label: Seq<char>,
    profile_name: Seq<char>,
) -> Seq<char> {
    "Clash Verge "@ + version + "\n"@ + sysproxy_label + ": "@ + spec_switch_label(system_proxy)
        + "\n"@ + tun_label + ": "@ + spec_switch_label(tun_mode) + "\n"@ + profile_label + ": "@
        + profile_name
}

/// The tooltip text, with the labels already translated.
pub fn tooltip_text(
    version: &str,
    sysproxy_label: &str,
    system_proxy: bool,
    tun_label: &str,
    tun_mode: bool,
    profile_label: &str,
    profile_name: &str,
) -> (r: String)
    ensures
        r@ == spec_tooltip(
            version@,
            sysproxy_label@,
            system_proxy,
            tun_label@,
            tun_mode,
            profile_label@,
            profile_name@,
        ),
{
    let mut r = owned("Clash Verge ");
    r.append(version);
    r.append("\n");
    r.append(sysproxy_label);
    r.append(": ");
    r.append(switch_label(system_proxy));
    r.append("\n");
    r.append(tun_label);
    r.append(": ");
    r.append(switch_label(tun_mode));
    r.append("\n");
    r.append(profile_label);
    r.append(": ");
    r.append(profile_name);
    r
}

/// The tooltip for the settings `verge` and the current profile: `version` is the
/// application's version, the labels are translated, and `current` is the name of the
/// current profile when there is one.
pub fn update_tooltip(
    version: &str,
    sysproxy_label: &str,
    tun_label: &str,
    profile_label: &str,
    verge: &IVerge,
    current: Option<Option<String>>,
) -> (r: String)
    ensures
        r@ == spec_tooltip(
            version@,
            sysproxy_label@,
            flag(verge.enable_system_proxy, false),
            tun_label@,
            flag(verge.enable_tun_mode, false),
            profile_label@,
            spec_current_profile_name(
                match current {
                    Some(Some(n)) => Some(Some(n@)),
                    Some(None) => Some(None),
                    None => None,
                },
            ),
        ),
{
    let name = current_profile_name(current);
    tooltip_text(
        version,
        sysproxy_label,
        verge.system_proxy_enabled(),
        tun_label,
        verge.tun_mode_enabled(),
        profile_label,
        name.as_str(),
    )
}

/// Each line of the tooltip says exactly what it is about: the first the version, the
/// system proxy line `on` exactly when the system proxy is on (whatever TUN mode is), the
/// TUN line `on` exactly when TUN mode is on (whatever the system proxy is), and the last
/// the profile's name. Splitting the text at the ends of the lines gives them back.
pub proof fn lemma_tooltip_lines(
    version: Seq<char>,
    sysproxy_label: Seq<char>,
    system_proxy: bool,
    tun_label: Seq<char>,
    tun_mode: bool,
    profile_label: Seq<char>,
    profile_name: Seq<char>,
)
    ensures
        ({
            let t = spec_tooltip(
                version,
                sysproxy_label,
                system_proxy,
                tun_label,
                tun_mode,
                profile_label,
                profile_name,
            );
            let first = "Clash Verge "@ + version;
            let sp_line = "\n"@ + sysproxy_label + ": "@ + (if system_proxy {
                "on"@
            } else {
                "off"@
            });
            let tun_line = "\n"@ + tun_label + ": "@ + (if tun_mode {
                "on"@
            } else {
                "off"@
            });
            let profile_line = "\n"@ + profile_label + ": "@ + profile_name;
            let a = first.len();
            let b = a + sp_line.len();
            let c = b + tun_line.len();
            &&& t.len() == c + profile_line.len()
            &&& t.subrange(0, a as int) == first
            &&& t.subrange(a as int, b as int) == sp_line
            &&& t.subrange(b as int, c as int) == tun_line
            &&& t.subrange(c as int, t.len() as int) == profile_line
        }),
{
    let t = spec_tooltip(
        version,
        sysproxy_label,
        system_proxy,
        tun_label,
        tun_mode,
        profile_label,
        profile_name,
    );
    let first = "Clash Verge "@ + version;
    let sp_line = "\n"@ + sysproxy_label + ": "@ + (if system_proxy {
        "on"@
    } else {
        "off"@
    });
    let tun_line = "\n"@ + tun_label + ": "@ + (if tun_mode {
        "on"@
    } else {
        "off"@
    });
    let profile_line = "\n"@ + profile_label + ": "@ + profile_name;
    assert(t =~= first + sp_line + tun_line + profile_line);
    let a = first.len();
    let b = a + sp_line.len();
    let c = b + tun_line.len();
    assert(t.subrange(0, a as int) =~= first);
    assert(t.subrange(a as int, b as int) =~= sp_line);
    assert(t.subrange(b as int, c as int) =~= tun_line);
    assert(t.subrange(c as int, t.len() as int) =~= profile_line);
}

} // verus!
