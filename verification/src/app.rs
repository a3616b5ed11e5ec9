//! The main window's tabs: what each is called in the settings, which are
//! shown, what selecting one loads, the theme switch, and the file picked for
//! an RPM install.
use vstd::prelude::*;
use crate::settings::{TabVisibility, available_tab_names, visible_in};
use crate::text::{string_of, trim, trim_vec, chars_of};

verus! {

#[derive(Clone, Copy, Debug, PartialEq, Eq, Structural)]
pub enum Tab {
    Search,
    Installed,
    Update,
    Flatpak,
    Maintenance,
    Repo,
    Kernel,
    Device,
    Fpm,
    Tweaks,
}

/// The name that the settings give a tab.
pub open spec fn tab_setting_name(t: Tab) -> Seq<char> {
    match t {
        Tab::Search => "Search"@,
        Tab::Installed => "Installed"@,
        Tab::Update => "Updates"@,
        Tab::Flatpak => "Flatpak"@,
        Tab::Maintenance => "Maintenance"@,
        Tab::Repo => "Repositories"@,
        Tab::Kernel => "Kernel"@,
        Tab::Device => "Device"@,
        Tab::Fpm => "FPM"@,
        Tab::Tweaks => "Tweaks"@,
    }
}

impl Tab {
    pub fn setting_name(self) -> (r: &'static str)
        ensures
            r@ == tab_setting_name(self),
    {
        match self {
            Tab::Search => "Search",
            Tab::Installed => "Installed",
            Tab::Update => "Updates",
            Tab::Flatpak => "Flatpak",
            Tab::Maintenance => "Maintenance",
            Tab::Repo => "Repositories",
            Tab::Kernel => "Kernel",
            Tab::Device => "Device",
            Tab::Fpm => "FPM",
            Tab::Tweaks => "Tweaks",
        }
    }
}

/// The tabs in the order the window shows them.
pub open spec fn tab_order() -> Seq<Tab> {
    seq![
        Tab::Search,
        Tab::Installed,
        Tab::Update,
        Tab::Flatpak,
        Tab::Maintenance,
        Tab::Repo,
        Tab::Kernel,
        Tab::Device,
        Tab::Fpm,
        Tab::Tweaks,
    ]
}

/// The tabs of `ts` that the settings show, in order.
pub open spec fn shown_tabs(ts: Seq<Tab>, m: Map<Seq<char>, bool>) -> Seq<Tab>
    decreases ts.len(),
{
    if ts.len() == 0 {
        Seq::empty()
    } else {
        let rest = shown_tabs(ts.drop_last(), m);
        if visible_in(m, tab_setting_name(ts.last())) {
            rest.push(ts.last())
        } else {
            rest
        }
    }
}

/// The tabs that the window shows, in order.
pub fn visible_tabs(v: &TabVisibility) -> (r: Vec<Tab>)
    ensures
        r@ == shown_tabs(tab_order(), v@),
{
    let order = vec![
        Tab::Search,
        Tab::Installed,
        Tab::Update,
        Tab::Flatpak,
        Tab::Maintenance,
        Tab::Repo,
        Tab::Kernel,
        Tab::Device,
        Tab::Fpm,
        Tab::Tweaks,
    ];
    assert(order@ =~= tab_order());
    let mut r: Vec<Tab> = Vec::new();
    let mut i: usize = 0;
    while i < order.len()
        invariant
            i <= order@.len(),
            order@ == tab_order(),
            r@ == shown_tabs(order@.take(i as int), v@),
        decreases order.len() - i,
    {
        assert(order@.take(i + 1).drop_last() =~= order@.take(i as int));
        let t = order[i];
        if v.is_tab_visible(t.setting_name()) {
            r.push(t);
        }
        i += 1;
    }
    assert(order@.take(order.len() as int) =~= order@);
    r
}

/// What selecting a tab loads.
#[derive(Clone, Copy, Debug, PartialEq, Eq, Structural)]
pub enum TabLoad {
    Nothing,
    /// The installed tab reloads its packages.
    InstalledPackages,
    /// The repositories tab reloads the repositories.
    Repositories,
    /// The kernel tab reloads its branches.
    KernelBranches,
    /// The device tab asks for permissions.
    DevicePermissions,
    /// The tweaks tab reloads the dnf configuration.
    DnfConfig,
}

pub open spec fn tab_load(t: Tab) -> TabLoad {
    match t {
        Tab::Installed => TabLoad::InstalledPackages,
        Tab::Repo => TabLoad::Repositories,
        Tab::Kernel => TabLoad::KernelBranches,
        Tab::Device => TabLoad::DevicePermissions,
        Tab::Tweaks => TabLoad::DnfConfig,
        _ => TabLoad::Nothing,
    }
}

/// What the window loads when a tab is selected.
pub fn tab_selected(t: Tab) -> (r: TabLoad)
    ensures
        r == tab_load(t),
{
    match t {
        Tab::Installed => TabLoad::InstalledPackages,
        Tab::Repo => TabLoad::Repositories,
        Tab::Kernel => TabLoad::KernelBranches,
        Tab::Device => TabLoad::DevicePermissions,
        Tab::Tweaks => TabLoad::DnfConfig,
        _ => TabLoad::Nothing,
    }
}

/// The window's colour theme.
#[derive(Clone, Copy, Debug, PartialEq, Eq, Structural)]
pub enum AppTheme {
    Light,
    Dark,
}

/// The theme after the theme button: the other one.
pub open spec fn other_theme(t: AppTheme) -> AppTheme {
    match t {
        AppTheme::Light => AppTheme::Dark,
        AppTheme::Dark => AppTheme::Light,
    }
}

pub fn toggle_theme(t: AppTheme) -> (r: AppTheme)
    ensures
        r == other_theme(t),
{
    match t {
        AppTheme::Light => AppTheme::Dark,
        AppTheme::Dark => AppTheme::Light,
    }
}

/// The path that a file chooser printed: its trimmed output, where it
/// succeeded and printed something.
pub open spec fn picked_path(success: bool, stdout: Seq<char>) -> Option<Seq<char>> {
    if success && trim(stdout).len() > 0 {
        Some(trim(stdout))
    } else {
        None
    }
}

pub fn picked_path_of(success: bool, stdout: &str) -> (r: Option<String>)
    ensures
        match (r, picked_path(success, stdout@)) {
            (Some(a), Some(b)) => a@ == b,
            (None, None) => true,
            _ => false,
        },
{
    if !success {
        return None;
    }
    let t = trim_vec(&chars_of(stdout));
    if t.len() == 0 {
        None
    } else {
        Some(string_of(&t))
    }
}

/// The theme button always changes the theme, and pressing it twice gives
/// back the theme it started from.
pub proof fn theme_toggle_twice(t: AppTheme)
    ensures
        other_theme(t) != t,
        other_theme(other_theme(t)) == t,
{
}

/// With no tab listed in the settings, every tab is shown, in order.
pub proof fn all_tabs_shown_by_default(m: Map<Seq<char>, bool>)
    requires
        m == Map::<Seq<char>, bool>::empty(),
    ensures
        shown_tabs(tab_order(), m) == tab_order(),
{
    let o = tab_order();
    assert forall|i: int| 0 <= i <= o.len() implies shown_tabs(#[trigger] o.take(i), m) == o.take(i) by {
        lemma_all_shown(o, m, i);
    }
    assert(o.take(o.len() as int) =~= o);
}

proof fn lemma_all_shown(o: Seq<Tab>, m: Map<Seq<char>, bool>, i: int)
    requires
        m == Map::<Seq<char>, bool>::empty(),
        0 <= i <= o.len(),
    ensures
        shown_tabs(o.take(i), m) == o.take(i),
    decreases i,
{
    if i > 0 {
        lemma_all_shown(o, m, i - 1);
        assert(o.take(i).drop_last() =~= o.take(i - 1));
        assert(o.take(i - 1).push(o[i - 1]) =~= o.take(i));
    }
}


/// Each tab that the settings list is looked up under the name the settings
/// list it by: the first nine tabs, in order, carry the names of the
/// settings' tab list, and the tweaks tab its own name.
pub proof fn tab_names_match_settings()
    ensures
        forall|i: int| 0 <= i < available_tab_names().len() ==> tab_setting_name(#[trigger] tab_order()[i])
            == available_tab_names()[i],
        available_tab_names().len() + 1 == tab_order().len(),
        tab_setting_name(Tab::Tweaks) == "Tweaks"@,
{
}

/// Two different tabs are never looked up under the same name, so a setting
/// hides or shows one tab only.
pub proof fn tab_names_are_distinct(a: Tab, b: Tab)
    requires
        a != b,
    ensures
        tab_setting_name(a) != tab_setting_name(b),
{
    reveal_strlit("Search");
    reveal_strlit("Installed");
    reveal_strlit("Updates");
    reveal_strlit("Flatpak");
    reveal_strlit("Maintenance");
    reveal_strlit("Repositories");
    reveal_strlit("Kernel");
    reveal_strlit("Device");
    reveal_strlit("FPM");
    reveal_strlit("Tweaks");
    if tab_setting_name(a) == tab_setting_name(b) {
        let x = tab_setting_name(a);
        assert(x.len() == tab_setting_name(b).len());
        assert(x[0] == tab_setting_name(b)[0]);
        assert(x[1] == tab_setting_name(b)[1]);
    }
}

proof fn lemma_shown_contains(ts: Seq<Tab>, m: Map<Seq<char>, bool>, t: Tab)
    ensures
        shown_tabs(ts, m).contains(t) <==> ts.contains(t) && visible_in(m, tab_setting_name(t)),
    decreases ts.len(),
{
    if ts.len() > 0 {
        lemma_shown_contains(ts.drop_last(), m, t);
        let rest = shown_tabs(ts.drop_last(), m);
        if ts.contains(t) {
            let i = choose|i: int| 0 <= i < ts.len() && ts[i] == t;
            if i < ts.len() - 1 {
                assert(ts.drop_last()[i] == t);
            }
        }
        if ts.drop_last().contains(t) {
            let i = choose|i: int| 0 <= i < ts.drop_last().len() && ts.drop_last()[i] == t;
            assert(ts[i] == t);
        }
        if visible_in(m, tab_setting_name(ts.last())) {
            if rest.push(ts.last()).contains(t) {
                let i = choose|i: int| 0 <= i < rest.push(ts.last()).len() && rest.push(ts.last())[i] == t;
                if i < rest.len() {
                    assert(rest[i] == t);
                }
            }
            assert(rest.push(ts.last())[rest.len() as int] == ts.last());
            if rest.contains(t) {
                let i = choose|i: int| 0 <= i < rest.len() && rest[i] == t;
                assert(rest.push(ts.last())[i] == t);
            }
        }
        assert(ts[ts.len() - 1] == ts.last());
    }
}

/// The window shows a tab exactly when the settings show it: a tab set
/// hidden is left out, and every other tab is shown.
pub proof fn tab_shown_iff_visible(m: Map<Seq<char>, bool>, t: Tab)
    ensures
        shown_tabs(tab_order(), m).contains(t) <==> visible_in(m, tab_setting_name(t)),
        m.dom().contains(tab_setting_name(t)) && !m[tab_setting_name(t)] ==> !shown_tabs(
            tab_order(),
            m,
        ).contains(t),
{
    lemma_shown_contains(tab_order(), m, t);
    match t {
        Tab::Search => assert(tab_order()[0] == t),
        Tab::Installed => assert(tab_order()[1] == t),
        Tab::Update => assert(tab_order()[2] == t),
        Tab::Flatpak => assert(tab_order()[3] == t),
        Tab::Maintenance => assert(tab_order()[4] == t),
        Tab::Repo => assert(tab_order()[5] == t),
        Tab::Kernel => assert(tab_order()[6] == t),
        Tab::Device => assert(tab_order()[7] == t),
        Tab::Fpm => assert(tab_order()[8] == t),
        Tab::Tweaks => assert(tab_order()[9] == t),
    }
}

} // verus!
