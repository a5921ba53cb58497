//! Which image the tray icon shows: the state of the proxy picks a kind of icon, the
//! settings pick the user's own file or a bundled one, and on macOS the traffic rate may
//! be drawn beside it.
use vstd::prelude::*;
use vstd::std_specs::hash::DefaultHasherAdditionalSpecFns;
use vstd::bytes::{spec_u64_to_le_bytes, u64_to_le_bytes};
use std::collections::hash_map::DefaultHasher;
use std::hash::Hasher;

use crate::verge::{flag, IVerge};
use crate::tray_menu::opt_string_view;

verus! {

/// The state of the proxy that the icon shows.
#[derive(Debug, Clone, Copy, PartialEq, Eq)]
pub enum IconKind {
    /// Neither switch selects another icon.
    Common,
    /// The system proxy is on and TUN mode off.
    SystemProxy,
    /// TUN mode is on.
    Tun,
}

/// The kind of icon: TUN mode wins over the system proxy.
pub open spec fn spec_icon_kind(system_proxy: bool, tun_mode: bool) -> IconKind {
    if system_proxy && !tun_mode {
        IconKind::SystemProxy
    } else if tun_mode {
        IconKind::Tun
    } else {
        IconKind::Common
    }
}

/// The kind of icon for the given proxy switches.
pub fn icon_kind(system_proxy: bool, tun_mode: bool) -> (r: IconKind)
    ensures
        r == spec_icon_kind(system_proxy, tun_mode),
{
    if system_proxy && !tun_mode {
        IconKind::SystemProxy
    } else if tun_mode {
        IconKind::Tun
    } else {
        IconKind::Common
    }
}

/// The name, without extension, of the user's own icon file of a kind, in the icon folder.
pub open spec fn spec_custom_icon_stem(kind: IconKind) -> Seq<char> {
    match kind {
        IconKind::Common => "common"@,
        IconKind::SystemProxy => "sysproxy"@,
        IconKind::Tun => "tun"@,
    }
}

/// The name, without extension, of the user's own icon file for `kind`.
pub fn custom_icon_stem(kind: IconKind) -> (r: &'static str)
    ensures
        r@ == spec_custom_icon_stem(kind),
{
    match kind {
        IconKind::Common => "common",
        IconKind::SystemProxy => "sysproxy",
        IconKind::Tun => "tun",
    }
}

/// One of the icons bundled with the application.
#[derive(Debug, Clone, Copy, PartialEq, Eq)]
pub struct BundledIcon {
    pub kind: IconKind,
    /// The colour variant, or the monochrome one.
    pub colorful: bool,
}

/// The file name of a bundled icon.
pub open spec fn spec_bundled_icon_file(icon: BundledIcon) -> Seq<char> {
    match (icon.kind, icon.colorful) {
        (IconKind::Common, true) => "tray-icon.ico"@,
        (IconKind::Common, false) => "tray-icon-mono.ico"@,
        (IconKind::SystemProxy, true) => "tray-icon-sys.ico"@,
        (IconKind::SystemProxy, false) => "tray-icon-sys-mono.ico"@,
        (IconKind::Tun, true) => "tray-icon-tun.ico"@,
        (IconKind::Tun, false) => "tray-icon-tun-mono.ico"@,
    }
}

/// The file name of a bundled icon.
pub fn bundled_icon_file(icon: BundledIcon) -> (r: &'static str)
    ensures
        r@ == spec_bundled_icon_file(icon),
{
    match (icon.kind, icon.colorful) {
        (IconKind::Common, true) => "tray-icon.ico",
        (IconKind::Common, false) => "tray-icon-mono.ico",
        (IconKind::SystemProxy, true) => "tray-icon-sys.ico",
        (IconKind::SystemProxy, false) => "tray-icon-sys-mono.ico",
        (IconKind::Tun, true) => "tray-icon-tun.ico",
        (IconKind::Tun, false) => "tray-icon-tun-mono.ico",
    }
}

/// What the icon is drawn from, before the icon folder is looked at.
#[derive(Debug, Clone, Copy, PartialEq, Eq)]
pub struct IconPlan {
    pub kind: IconKind,
    /// The bundled icon, used unless a custom file is enabled and found.
    pub bundled: BundledIcon,
    /// Whether the user's own file of this kind is looked for.
    pub custom: bool,
    /// Whether macOS draws the icon as a template image (only the monochrome style).
    pub template: bool,
}

/// Whether the user's own icon is enabled for `kind` under the settings `verge`.
pub open spec fn spec_custom_enabled(verge: IVerge, kind: IconKind) -> bool {
    match kind {
        IconKind::Common => flag(verge.common_tray_icon, false),
        IconKind::SystemProxy => flag(verge.sysproxy_tray_icon, false),
        IconKind::Tun => flag(verge.tun_tray_icon, false),
    }
}

/// Whether the bundled icons are drawn in colour: always off macOS, on macOS only under
/// the `colorful` style.
pub open spec fn spec_colorful(verge: IVerge, is_macos: bool) -> bool {
    !is_macos || opt_string_view(verge.tray_icon) == Some("colorful"@)
}

/// What the tray icon is drawn from, under the settings `verge`.
pub open spec fn spec_icon_plan(verge: IVerge, is_macos: bool) -> IconPlan {
    let kind = spec_icon_kind(flag(verge.enable_system_proxy, false), flag(verge.enable_tun_mode, false));
    IconPlan {
        kind,
        bundled: BundledIcon { kind, colorful: spec_colorful(verge, is_macos) },
        custom: spec_custom_enabled(verge, kind),
        template: !(opt_string_view(verge.tray_icon) == Some("colorful"@)),
    }
}

/// What the tray icon is drawn from, under the settings `verge`, on macOS or elsewhere.
pub fn plan_tray_icon(verge: &IVerge, is_macos: bool) -> (r: IconPlan)
    ensures
        r == spec_icon_plan(*verge, is_macos),
{
    let kind = icon_kind(verge.system_proxy_enabled(), verge.tun_mode_enabled());
    let colorful_style = verge.colorful_icon();
    let custom = match kind {
        IconKind::Common => verge.common_icon_custom(),
        IconKind::SystemProxy => verge.sysproxy_icon_custom(),
        IconKind::Tun => verge.tun_icon_custom(),
    };
    IconPlan {
        kind,
        bundled: BundledIcon { kind, colorful: !is_macos || colorful_style },
        custom,
        template: !colorful_style,
    }
}

/// The file that the icon is read from.
#[derive(Debug, Clone, Copy, PartialEq, Eq)]
pub enum IconSource {
    Bundled(BundledIcon),
    /// The user's `.ico` file of the kind.
    CustomIco(IconKind),
    /// The user's `.png` file of the kind.
    CustomPng(IconKind),
}

/// Where the icon comes from: an enabled custom `.ico` file first, then a `.png` one,
/// else the bundled icon.
pub open spec fn spec_icon_source(plan: IconPlan, ico_exists: bool, png_exists: bool) -> IconSource {
    if plan.custom && ico_exists {
        IconSource::CustomIco(plan.kind)
    } else if plan.custom && png_exists {
        IconSource::CustomPng(plan.kind)
    } else {
        IconSource::Bundled(plan.bundled)
    }
}

/// Where the icon comes from, given which of the user's files of the kind exist.
pub fn choose_icon_source(plan: IconPlan, ico_exists: bool, png_exists: bool) -> (r: IconSource)
    ensures
        r == spec_icon_source(plan, ico_exists, png_exists),
{
    if plan.custom && ico_exists {
        IconSource::CustomIco(plan.kind)
    } else if plan.custom && png_exists {
        IconSource::CustomPng(plan.kind)
    } else {
        IconSource::Bundled(plan.bundled)
    }
}

/// How macOS draws the tray icon.
#[derive(Debug, Clone, Copy, PartialEq, Eq)]
pub enum RenderMode {
    /// The icon alone.
    Plain,
    /// The traffic rate, with the icon beside it or without.
    Speed { with_icon: bool },
}

/// How macOS draws the tray icon: the icon alone unless the rate is shown.
pub open spec fn spec_render_mode(tray_speed: bool, tray_icon: bool) -> RenderMode {
    if !tray_speed {
        RenderMode::Plain
    } else {
        RenderMode::Speed { with_icon: tray_icon }
    }
}

/// How macOS draws the tray icon under the settings `verge`.
pub fn render_mode(verge: &IVerge) -> (r: RenderMode)
    ensures
        r == spec_render_mode(flag(verge.enable_tray_speed, true), flag(verge.enable_tray_icon, true)),
{
    let speed = verge.tray_speed_enabled();
    let icon = verge.tray_icon_enabled();
    if !speed || (!speed && !icon) {
        RenderMode::Plain
    } else {
        RenderMode::Speed { with_icon: icon }
    }
}

/// The rate drawn beside the icon: the one given, else the last one measured, else the
/// default.
pub fn choose_rate<R>(given: Option<R>, measured: Option<R>, default: R) -> (r: R)
    ensures
        r == (match given {
            Some(g) => g,
            None => match measured {
                Some(m) => m,
                None => default,
            },
        }),
{
    match given {
        Some(g) => g,
        None => match measured {
            Some(m) => m,
            None => default,
        },
    }
}

/// The digest of icon bytes: what a fresh `DefaultHasher` finishes to after one write of them.
pub open spec fn spec_icon_digest(bytes: Seq<u8>) -> u64 {
    DefaultHasher::spec_finish(seq![spec_u64_to_le_bytes(bytes.len() as u64), bytes])
}

/// The digest of icon bytes, by which a redraw of the same icon is recognised: what a
/// fresh `DefaultHasher` finishes to after hashing the byte vector, that is after a write
/// of its length prefix and one of its bytes. The prefix is the length as a 64-bit
/// little-endian word, as `usize` is on every target macOS runs on, where this digest is
/// taken.
pub fn icon_digest(bytes: &Vec<u8>) -> (r: u64)
    ensures
        r == spec_icon_digest(bytes@),
{
    let mut hasher = DefaultHasher::new();
    let prefix = u64_to_le_bytes(bytes.len() as u64);
    hasher.write(prefix.as_slice());
    hasher.write(bytes.as_slice());
    assert(hasher@ =~= seq![spec_u64_to_le_bytes(bytes@.len() as u64), bytes@]);
    hasher.finish()
}

/// The icon last drawn on macOS: its bytes and their digest.
pub struct IconCache {
    digest: Option<u64>,
    bytes: Option<Vec<u8>>,
}

impl IconCache {
    /// A digest is held exactly when bytes are, and it is theirs.
    #[verifier::type_invariant]
    spec fn digest_matches(&self) -> bool {
        match self.bytes {
            Some(b) => self.digest == Some(spec_icon_digest(b@)),
            None => self.digest is None,
        }
    }

    pub closed spec fn digest(&self) -> Option<u64> {
        self.digest
    }

    pub closed spec fn bytes(&self) -> Option<Seq<u8>> {
        match self.bytes {
            Some(b) => Some(b@),
            None => None,
        }
    }

    /// An empty cache.
    pub fn new() -> (r: IconCache)
        ensures
            r.digest() is None,
            r.bytes() is None,
    {
        IconCache { digest: None, bytes: None }
    }

    /// Keeps `bytes` when their digest differs from the cached one; returns whether it did.
    /// The cached digest is always that of the cached bytes.
    pub fn refresh(&mut self, bytes: Vec<u8>) -> (changed: bool)
        ensures
            changed == (old(self).digest() != Some(spec_icon_digest(bytes@))),
            changed ==> final(self).bytes() == Some(bytes@),
            !changed ==> final(self).bytes() == old(self).bytes(),
            final(self).digest() == Some(spec_icon_digest(bytes@)),
            final(self).bytes() matches Some(b) && final(self).digest() == Some(spec_icon_digest(b)),
    {
        proof {
            use_type_invariant(&*self);
        }
        let digest = icon_digest(&bytes);
        let changed = match self.digest {
            Some(d) => d != digest,
            None => true,
        };
        if changed {
            *self = IconCache { digest: Some(digest), bytes: Some(bytes) };
        }
        proof {
            use_type_invariant(&*self);
        }
        changed
    }

    /// The cached bytes; the cached digest is theirs.
    pub fn cached_bytes(&self) -> (r: Option<&Vec<u8>>)
        ensures
            match r {
                Some(b) => self.bytes() == Some(b@) && self.digest() == Some(spec_icon_digest(b@)),
                None => self.bytes() is None && self.digest() is None,
            },
    {
        proof {
            use_type_invariant(self);
        }
        self.bytes.as_ref()
    }
}

/// The traffic rate drawn beside the macOS tray icon, in bytes per second.
#[derive(Debug, Clone, Copy, Default, PartialEq, Eq, Structural)]
pub struct Rate {
    pub up: u64,
    pub down: u64,
}

/// The rate kept after a refresh with `rate`, and whether it differs from the one kept
/// before.
pub open spec fn spec_rate_refresh(last: Option<Rate>, rate: Rate) -> (Option<Rate>, bool) {
    (Some(rate), last != Some(rate))
}

/// The rate last drawn beside the icon.
pub struct RateCache {
    last: Option<Rate>,
}

impl RateCache {
    pub closed spec fn last(&self) -> Option<Rate> {
        self.last
    }

    /// Nothing drawn yet.
    pub fn new() -> (r: RateCache)
        ensures
            r.last() is None,
    {
        RateCache { last: None }
    }

    /// Keeps `rate` when it differs from the rate last drawn; returns whether it did.
    pub fn refresh(&mut self, rate: Rate) -> (changed: bool)
        ensures
            (final(self).last(), changed) == spec_rate_refresh(old(self).last(), rate),
    {
        let changed = match self.last {
            Some(last) => last != rate,
            None => true,
        };
        if changed {
            self.last = Some(rate);
        }
        changed
    }

    /// The rate last drawn.
    pub fn last_rate(&self) -> (r: Option<Rate>)
        ensures
            r == self.last(),
    {
        self.last
    }
}

/// A second refresh with the same rate finds no change.
pub proof fn lemma_rate_refresh_twice(last: Option<Rate>, rate: Rate)
    ensures
        spec_rate_refresh(spec_rate_refresh(last, rate).0, rate) == (Some(rate), false),
        spec_rate_refresh(last, rate).1 == (last != Some(rate)),
{
}

/// What macOS sets as the tray image on an update.
#[derive(Debug, Clone, Copy, PartialEq, Eq)]
pub enum IconDraw {
    /// The cached icon alone.
    Plain,
    /// The rate drawn beside the cached icon, or alone.
    Speed { with_icon: bool },
    /// Nothing: the image shown is already the right one.
    Keep,
}

/// What to draw: the icon alone is always set; with the rate shown, a new image is set
/// whenever the icon or the rate changed since the last one.
pub open spec fn spec_icon_draw(mode: RenderMode, icon_changed: bool, rate_changed: bool) -> IconDraw {
    match mode {
        RenderMode::Plain => IconDraw::Plain,
        RenderMode::Speed { with_icon } => {
            if icon_changed || rate_changed {
                IconDraw::Speed { with_icon }
            } else {
                IconDraw::Keep
            }
        },
    }
}

/// What to draw, given how macOS shows the icon, whether the icon bytes changed (the
/// icon cache's refresh) and whether the rate changed (the rate cache's refresh).
pub fn decide_icon_draw(mode: RenderMode, icon_changed: bool, rate_changed: bool) -> (r: IconDraw)
    ensures
        r == spec_icon_draw(mode, icon_changed, rate_changed),
{
    match mode {
        RenderMode::Plain => IconDraw::Plain,
        RenderMode::Speed { with_icon } => {
            if icon_changed || rate_changed {
                IconDraw::Speed { with_icon }
            } else {
                IconDraw::Keep
            }
        },
    }
}

/// A change of the icon is always shown: the image is kept only when neither the icon
/// nor the rate changed while the rate is shown.
pub proof fn lemma_changed_icon_is_drawn(mode: RenderMode, icon_changed: bool, rate_changed: bool)
    ensures
        icon_changed ==> spec_icon_draw(mode, icon_changed, rate_changed) != IconDraw::Keep,
        rate_changed ==> spec_icon_draw(mode, icon_changed, rate_changed) != IconDraw::Keep,
        (spec_icon_draw(mode, icon_changed, rate_changed) == IconDraw::Keep) <==> (mode
            is Speed && !icon_changed && !rate_changed),
{
}

/// TUN mode decides the icon whenever it is on, whatever the system proxy; the system
/// proxy icon shows only with TUN mode off; the common icon only with both off.
pub proof fn lemma_icon_kind_precedence(system_proxy: bool, tun_mode: bool)
    ensures
        tun_mode ==> spec_icon_kind(system_proxy, tun_mode) == IconKind::Tun,
        (spec_icon_kind(system_proxy, tun_mode) == IconKind::SystemProxy) <==> (system_proxy
            && !tun_mode),
        (spec_icon_kind(system_proxy, tun_mode) == IconKind::Common) <==> (!system_proxy
            && !tun_mode),
{
}

/// The user's own file is read only when enabled for the kind shown; otherwise the bundled
/// icon of that kind is used, whatever files exist.
pub proof fn lemma_custom_icon_needs_setting(plan: IconPlan, ico_exists: bool, png_exists: bool)
    ensures
        !plan.custom ==> spec_icon_source(plan, ico_exists, png_exists) == IconSource::Bundled(
            plan.bundled,
        ),
        spec_icon_source(plan, ico_exists, png_exists) matches IconSource::CustomIco(k) ==> k
            == plan.kind && ico_exists,
        spec_icon_source(plan, ico_exists, png_exists) matches IconSource::CustomPng(k) ==> k
            == plan.kind && png_exists && !ico_exists,
        plan.custom && ico_exists ==> spec_icon_source(plan, ico_exists, png_exists)
            == IconSource::CustomIco(plan.kind),
        plan.custom && !ico_exists && png_exists ==> spec_icon_source(plan, ico_exists, png_exists)
            == IconSource::CustomPng(plan.kind),
        spec_icon_source(plan, ico_exists, png_exists) matches IconSource::Bundled(b) ==> b
            == plan.bundled && !(plan.custom && (ico_exists || png_exists)),
{
}

/// The user's own icon files are named after the state they show, one name per state:
/// `common`, `sysproxy` and `tun`.
pub proof fn lemma_custom_icon_stems_distinct(a: IconKind, b: IconKind)
    ensures
        spec_custom_icon_stem(a) == spec_custom_icon_stem(b) ==> a == b,
        (a == IconKind::Common) <==> spec_custom_icon_stem(a) == "common"@,
        (a == IconKind::SystemProxy) <==> spec_custom_icon_stem(a) == "sysproxy"@,
        (a == IconKind::Tun) <==> spec_custom_icon_stem(a) == "tun"@,
{
    reveal_strlit("common");
    reveal_strlit("sysproxy");
    reveal_strlit("tun");
    assert("common"@[0] == 'c');
    assert("sysproxy"@[0] == 's');
    assert("tun"@[0] == 't');
}

/// The icon is drawn alone exactly when the rate is not shown; when it is shown, the icon
/// is drawn beside it exactly when that is enabled.
pub proof fn lemma_render_mode(tray_speed: bool, tray_icon: bool)
    ensures
        (spec_render_mode(tray_speed, tray_icon) == RenderMode::Plain) <==> !tray_speed,
        tray_speed ==> spec_render_mode(tray_speed, tray_icon) == (RenderMode::Speed {
            with_icon: tray_icon,
        }),
{
}

/// The bundled icon files tell every state apart: each name starts with `tray-icon` and ends
/// with `.ico`; the system proxy icons, and only they, carry `-sys` after `tray-icon`, the
/// TUN icons, and only they, `-tun`, the common icons neither; the monochrome variants,
/// and only they, end with `-mono.ico`. So no two icons share a file.
pub proof fn lemma_bundled_icon_files_distinct(a: BundledIcon, b: BundledIcon)
    ensures
        ({
            let f = spec_bundled_icon_file(a);
            &&& f.len() >= 13
            &&& f.subrange(0, 9) == "tray-icon"@
            &&& f.subrange(f.len() - 4, f.len() as int) == ".ico"@
            &&& (a.kind == IconKind::SystemProxy) <==> (f.len() >= 17 && f.subrange(9, 13)
                == "-sys"@)
            &&& (a.kind == IconKind::Tun) <==> (f.len() >= 17 && f.subrange(9, 13) == "-tun"@)
            &&& !a.colorful <==> (f.len() >= 18 && f.subrange(f.len() - 9, f.len() as int)
                == "-mono.ico"@)
        }),
        spec_bundled_icon_file(a) == spec_bundled_icon_file(b) ==> a == b,
{
    reveal_strlit("tray-icon.ico");
    reveal_strlit("tray-icon-mono.ico");
    reveal_strlit("tray-icon-sys.ico");
    reveal_strlit("tray-icon-sys-mono.ico");
    reveal_strlit("tray-icon-tun.ico");
    reveal_strlit("tray-icon-tun-mono.ico");
    reveal_strlit("tray-icon");
    reveal_strlit(".ico");
    reveal_strlit("-sys");
    reveal_strlit("-tun");
    reveal_strlit("-mono.ico");
    let f = spec_bundled_icon_file(a);
    assert(f.subrange(0, 9) =~= "tray-icon"@);
    assert(f.subrange(f.len() - 4, f.len() as int) =~= ".ico"@);
    if f.len() >= 17 {
        assert(f.subrange(9, 13)[1] == f[10]);
    }
    if a.kind == IconKind::SystemProxy {
        assert(f.subrange(9, 13) =~= "-sys"@);
    }
    if a.kind == IconKind::Tun {
        assert(f.subrange(9, 13) =~= "-tun"@);
    }
    if !a.colorful {
        assert(f.subrange(f.len() - 9, f.len() as int) =~= "-mono.ico"@);
    }
    if f.len() >= 18 {
        assert(f.subrange(f.len() - 9, f.len() as int)[0] == f[f.len() - 9]);
    }
    let g = spec_bundled_icon_file(b);
    if f == g {
        assert(f.len() == g.len());
        assert(f[10] == g[10]);
    }
}

} // verus!
