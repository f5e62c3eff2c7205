//! Launcher widget — pinned app launchers for the Hyprland dock.
//!
//! Shows a row of icon buttons for the apps listed in the `[widgets.launcher]`
//! config section. Each button launches its `exec` command with `sh -c` on
//! click, or focuses an already-running window whose `app_id` matches the
//! pinned entry. A small running indicator dot appears beneath the icon while
//! a matching window is open.
//!
//! This module holds what the widget decides: how the config section is
//! read, which icon size is used, what a click does and which dots show.

use vstd::prelude::*;

use crate::config::{
    get_option, integer_of, str_of, strings_view, table_get, unknown_keys, unknown_option_keys,
    OptionValue, WidgetEntry,
};
use crate::text::{to_lowercase, unicode_lowercase};

verus! {

/// A single pinned app entry.
#[derive(Debug, Clone)]
pub struct PinnedApp {
    /// Display name (used as the button tooltip).
    pub name: String,
    /// Shell command to launch, run via `sh -c` (the `exec` key).
    pub command: String,
    /// Logical icon name, resolved through the icon service.
    pub icon: String,
    /// Lowercase matching id compared against a window's `app_id`.
    pub app_id: String,
}

/// The characters of a pinned app's four fields.
pub struct PinnedAppView {
    pub name: Seq<char>,
    pub command: Seq<char>,
    pub icon: Seq<char>,
    pub app_id: Seq<char>,
}

impl View for PinnedApp {
    type V = PinnedAppView;

    open spec fn view(&self) -> PinnedAppView {
        PinnedAppView { name: self.name@, command: self.command@, icon: self.icon@, app_id: self.app_id@ }
    }
}

/// Configuration for the launcher widget, read from the
/// `[widgets.launcher]` section. The `apps` key holds an array of inline
/// tables, each describing a pinned app:
///
/// ```toml
/// [widgets.launcher]
/// apps = [
///   { name = "Firefox", exec = "firefox", icon = "firefox" },
///   { name = "Terminal", exec = "kitty", icon = "utilities-terminal" },
/// ]
/// ```
#[derive(Debug, Clone)]
pub struct LauncherConfig {
    /// Pinned apps to show as launcher buttons.
    pub apps: Vec<PinnedApp>,
    /// Icon size in pixels. `None` means "use theme default".
    /// Resolved to a concrete value by `LauncherConfig::resolve_icon_size`.
    pub icon_size: Option<i32>,
}

/// The smallest icon size the launcher uses, in pixels.
pub const MIN_ICON_SIZE: i32 = 8;

/// The pinned apps' views, in order.
pub open spec fn apps_view(apps: Seq<PinnedApp>) -> Seq<PinnedAppView> {
    apps.map_values(|a: PinnedApp| a@)
}

/// `icon_size` as configured: an integer option, truncated to `i32` and
/// raised to at least `MIN_ICON_SIZE`.
pub open spec fn configured_icon_size(options: Seq<(String, OptionValue)>) -> Option<i32> {
    match integer_of(table_get(options, "icon_size"@)) {
        Some(v) => Some(
            if (v as i32) < MIN_ICON_SIZE {
                MIN_ICON_SIZE
            } else {
                v as i32
            },
        ),
        None => None,
    }
}

/// The pinned app that one item of the `apps` array describes: the item
/// must be a table with string `name` and `exec`. The icon defaults to the
/// lowercased name when missing or empty; the matching id is the lowercased
/// `app_id`, or the lowercased name when `app_id` is missing.
pub open spec fn pinned_app_of(item: OptionValue) -> Option<PinnedAppView> {
    match item {
        OptionValue::Table(t) => {
            let name = str_of(table_get(t@, "name"@));
            let exec = str_of(table_get(t@, "exec"@));
            let icon = str_of(table_get(t@, "icon"@));
            let app_id = str_of(table_get(t@, "app_id"@));
            if name is Some && exec is Some {
                let n = name.unwrap();
                Some(
                    PinnedAppView {
                        name: n,
                        command: exec.unwrap(),
                        icon: if icon is Some && icon.unwrap().len() > 0 {
                            icon.unwrap()
                        } else {
                            unicode_lowercase(n)
                        },
                        app_id: if app_id is Some {
                            unicode_lowercase(app_id.unwrap())
                        } else {
                            unicode_lowercase(n)
                        },
                    },
                )
            } else {
                None
            }
        },
        _ => None,
    }
}

/// The pinned apps of an `apps` array, in order, skipping the items that
/// describe none.
pub open spec fn pinned_apps_of(items: Seq<OptionValue>) -> Seq<PinnedAppView>
    decreases items.len(),
{
    if items.len() == 0 {
        Seq::empty()
    } else {
        pinned_apps_of(items.drop_last()) + match pinned_app_of(items.last()) {
            Some(a) => seq![a],
            None => Seq::empty(),
        }
    }
}

/// The pinned apps of a launcher section: those of its `apps` array, or
/// none when `apps` is missing or not an array.
pub open spec fn configured_apps(options: Seq<(String, OptionValue)>) -> Seq<PinnedAppView> {
    match table_get(options, "apps"@) {
        Some(OptionValue::Array(items)) => pinned_apps_of(items@),
        _ => Seq::empty(),
    }
}

/// The string held by an option, copied.
fn string_option(t: &Vec<(String, OptionValue)>, key: &str) -> (res: Option<String>)
    ensures
        match res {
            Some(s) => str_of(table_get(t@, key@)) == Some(s@),
            None => str_of(table_get(t@, key@)) is None,
        },
{
    match get_option(t, key) {
        Some(OptionValue::Str(s)) => Some(s.clone()),
        _ => None,
    }
}

/// Reads one item of the `apps` array.
fn pinned_app_from_item(item: &OptionValue) -> (res: Option<PinnedApp>)
    ensures
        match res {
            Some(a) => pinned_app_of(*item) == Some(a@),
            None => pinned_app_of(*item) is None,
        },
{
    match item {
        OptionValue::Table(t) => {
            let name = match string_option(t, "name") {
                Some(n) => n,
                None => return None,
            };
            let command = match string_option(t, "exec") {
                Some(e) => e,
                None => return None,
            };
            let icon = match string_option(t, "icon") {
                Some(i) => {
                    if i.as_str().is_empty() {
                        to_lowercase(name.as_str())
                    } else {
                        i
                    }
                },
                None => to_lowercase(name.as_str()),
            };
            // Match id defaults to the lowercased name when omitted.
            let app_id = match string_option(t, "app_id") {
                Some(a) => to_lowercase(a.as_str()),
                None => to_lowercase(name.as_str()),
            };
            Some(PinnedApp { name, command, icon, app_id })
        },
        _ => None,
    }
}

/// Reads every item of the `apps` array.
fn pinned_apps_from_items(items: &Vec<OptionValue>) -> (res: Vec<PinnedApp>)
    ensures
        apps_view(res@) == pinned_apps_of(items@),
{
    let mut apps: Vec<PinnedApp> = Vec::new();
    let mut i: usize = 0;
    while i < items.len()
        invariant
            i <= items.len(),
            apps_view(apps@) == pinned_apps_of(items@.take(i as int)),
        decreases items.len() - i,
    {
        let ghost before = apps@;
        let item = pinned_app_from_item(&items[i]);
        assert(items@.take(i + 1).drop_last() =~= items@.take(i as int));
        assert(items@.take(i + 1).last() == items@[i as int]);
        match item {
            Some(a) => {
                apps.push(a);
                assert(apps_view(apps@) =~= apps_view(before) + seq![a@]);
            },
            None => {
                assert(apps_view(apps@) =~= apps_view(before) + Seq::<PinnedAppView>::empty());
            },
        }
        i = i + 1;
    }
    assert(items@.take(items.len() as int) =~= items@);
    apps
}

impl Default for LauncherConfig {
    /// No pinned apps and the theme's icon size.
    fn default() -> (res: Self)
        ensures
            res.apps@.len() == 0,
            res.icon_size is None,
    {
        LauncherConfig { apps: Vec::new(), icon_size: None }
    }
}

impl LauncherConfig {
    /// Reads the launcher configuration from its `[widgets.launcher]`
    /// entry.
    pub fn from_entry(entry: &WidgetEntry) -> (res: Self)
        ensures
            res.icon_size == configured_icon_size(entry.options@),
            apps_view(res.apps@) == configured_apps(entry.options@),
            res.icon_size matches Some(size) ==> size >= MIN_ICON_SIZE,
            integer_of(table_get(entry.options@, "icon_size"@)) is None ==> res.icon_size is None,
            integer_of(table_get(entry.options@, "icon_size"@)) matches Some(v) ==> {
                &&& (v as i32) >= MIN_ICON_SIZE ==> res.icon_size == Some(v as i32)
                &&& (v as i32) < MIN_ICON_SIZE ==> res.icon_size == Some(MIN_ICON_SIZE)
            },
    {
        let icon_size = match get_option(&entry.options, "icon_size") {
            Some(OptionValue::Integer(v)) => {
                let s: i32 = *v as i32;
                Some(if s < MIN_ICON_SIZE { MIN_ICON_SIZE } else { s })
            },
            _ => None,
        };
        let apps = match get_option(&entry.options, "apps") {
            Some(OptionValue::Array(items)) => pinned_apps_from_items(items),
            _ => {
                let v: Vec<PinnedApp> = Vec::new();
                assert(apps_view(v@) =~= Seq::<PinnedAppView>::empty());
                v
            },
        };
        LauncherConfig { apps, icon_size }
    }

    /// The option keys of a launcher entry that the launcher does not read
    /// (anything but `apps` and `icon_size`), for a warning.
    pub fn unknown_options(entry: &WidgetEntry) -> (res: Vec<String>)
        ensures
            strings_view(res@) == unknown_keys(entry.options@, seq!["apps"@, "icon_size"@]),
            forall|i: int|
                0 <= i < entry.options@.len() && (#[trigger] entry.options@[i]).0@ != "apps"@
                    && entry.options@[i].0@ != "icon_size"@ ==> strings_view(res@).contains(
                    entry.options@[i].0@,
                ),
            forall|k: int|
                #![trigger res@[k]]
                0 <= k < res@.len() ==> exists|i: int|
                    0 <= i < entry.options@.len() && (#[trigger] entry.options@[i]).0@ == res@[k]@
                        && res@[k]@ != "apps"@ && res@[k]@ != "icon_size"@,
    {
        let mut known: Vec<String> = Vec::new();
        known.push("apps".to_owned());
        known.push("icon_size".to_owned());
        let ghost kv = seq!["apps"@, "icon_size"@];
        assert(strings_view(known@) =~= kv);
        let res = unknown_option_keys(&entry.options, &known);
        proof {
            assert forall|key: Seq<char>| kv.contains(key) <==> (key == "apps"@ || key == "icon_size"@) by {
                if key == "apps"@ {
                    assert(kv[0] == key);
                }
                if key == "icon_size"@ {
                    assert(kv[1] == key);
                }
            }
        }
        res
    }

    /// Resolves the icon size: the configured value wins, otherwise the
    /// theme's default; either is raised to at least `MIN_ICON_SIZE`. The
    /// resolved size is stored back into the configuration and returned.
    pub fn resolve_icon_size(&mut self, theme_default: i32) -> (size: i32)
        ensures
            size == resolved_icon_size(old(self).icon_size, theme_default),
            size >= MIN_ICON_SIZE,
            old(self).icon_size matches Some(s) ==> (s >= MIN_ICON_SIZE ==> size == s),
            old(self).icon_size matches Some(s) ==> (s < MIN_ICON_SIZE ==> size == MIN_ICON_SIZE),
            old(self).icon_size is None ==> (theme_default >= MIN_ICON_SIZE ==> size == theme_default),
            old(self).icon_size is None ==> (theme_default < MIN_ICON_SIZE ==> size == MIN_ICON_SIZE),
            final(self).icon_size == Some(size),
            final(self).apps@ == old(self).apps@,
    {
        let wanted = match self.icon_size {
            Some(s) => s,
            None => theme_default,
        };
        let size = if wanted < MIN_ICON_SIZE { MIN_ICON_SIZE } else { wanted };
        self.icon_size = Some(size);
        size
    }
}

/// The icon size the launcher uses.
pub open spec fn resolved_icon_size(configured: Option<i32>, theme_default: i32) -> i32 {
    let wanted = match configured {
        Some(s) => s,
        None => theme_default,
    };
    if wanted < MIN_ICON_SIZE {
        MIN_ICON_SIZE
    } else {
        wanted
    }
}

/// A window as the window list reports it.
#[derive(Debug, Clone)]
pub struct WindowInfo {
    /// The compositor's id of the window.
    pub id: u64,
    /// The window's application id; empty when the window has none.
    pub app_id: String,
    /// The window's title.
    pub title: String,
}

/// What a click on a launcher button does.
#[derive(Debug, Clone)]
pub enum LaunchAction {
    /// Focus the running window with this id.
    Focus(u64),
    /// Spawn this shell command with `sh -c`.
    Spawn(String),
}

/// A window belongs to a pinned app when it has an application id and both
/// ids lowercase alike.
pub open spec fn window_matches(w: WindowInfo, app_id: Seq<char>) -> bool {
    w.app_id@.len() > 0 && unicode_lowercase(w.app_id@) == unicode_lowercase(app_id)
}

/// Some window of the list belongs to the pinned app.
pub open spec fn has_matching_window(windows: Seq<WindowInfo>, app_id: Seq<char>) -> bool {
    exists|i: int| 0 <= i < windows.len() && window_matches(#[trigger] windows[i], app_id)
}

/// On click: focus the first window whose `app_id` matches the pinned
/// entry, otherwise spawn the configured command.
pub fn click_action(app_id: &str, command: &str, windows: &Vec<WindowInfo>) -> (res: LaunchAction)
    ensures
        match res {
            LaunchAction::Focus(id) => exists|i: int|
                0 <= i < windows.len() && window_matches(#[trigger] windows@[i], app_id@)
                    && windows@[i].id == id && forall|j: int|
                    0 <= j < i ==> !window_matches(#[trigger] windows@[j], app_id@),
            LaunchAction::Spawn(c) => c@ == command@ && !has_matching_window(windows@, app_id@),
        },
        res is Focus <==> has_matching_window(windows@, app_id@),
{
    let wanted = to_lowercase(app_id);
    let mut i: usize = 0;
    while i < windows.len()
        invariant
            i <= windows.len(),
            wanted@ == unicode_lowercase(app_id@),
            forall|j: int| 0 <= j < i ==> !window_matches(#[trigger] windows@[j], app_id@),
        decreases windows.len() - i,
    {
        let w = &windows[i];
        if !w.app_id.as_str().is_empty() {
            let id_lower = to_lowercase(w.app_id.as_str());
            if id_lower == wanted {
                assert(window_matches(windows@[i as int], app_id@));
                return LaunchAction::Focus(w.id);
            }
        }
        i = i + 1;
    }
    LaunchAction::Spawn(command.to_owned())
}

/// The lowercased application ids of the windows that have one, in window
/// order.
pub open spec fn running_ids(windows: Seq<WindowInfo>) -> Seq<Seq<char>>
    decreases windows.len(),
{
    if windows.len() == 0 {
        Seq::empty()
    } else {
        running_ids(windows.drop_last()) + if windows.last().app_id@.len() > 0 {
            seq![unicode_lowercase(windows.last().app_id@)]
        } else {
            Seq::empty()
        }
    }
}

/// Some window with an application id lowercases to `id`.
pub open spec fn id_running(id: Seq<char>, windows: Seq<WindowInfo>) -> bool {
    exists|i: int|
        0 <= i < windows.len() && (#[trigger] windows[i]).app_id@.len() > 0 && unicode_lowercase(
            windows[i].app_id@,
        ) == id
}

/// A launcher dot shows when its lowercased app id is among the running
/// ids: some open window matches the pinned app.
pub open spec fn dot_visible(dot_app_id: Seq<char>, windows: Seq<WindowInfo>) -> bool {
    running_ids(windows).contains(unicode_lowercase(dot_app_id))
}

/// The lowercased application ids of the running windows.
pub fn running_app_ids(windows: &Vec<WindowInfo>) -> (res: Vec<String>)
    ensures
        strings_view(res@) == running_ids(windows@),
        forall|i: int|
            0 <= i < windows@.len() && (#[trigger] windows@[i]).app_id@.len() > 0 ==> strings_view(
                res@,
            ).contains(unicode_lowercase(windows@[i].app_id@)),
        forall|k: int|
            #![trigger res@[k]]
            0 <= k < res@.len() ==> id_running(res@[k]@, windows@),
{
    let mut ids: Vec<String> = Vec::new();
    let mut i: usize = 0;
    while i < windows.len()
        invariant
            i <= windows.len(),
            strings_view(ids@) == running_ids(windows@.take(i as int)),
        decreases windows.len() - i,
    {
        let ghost before = ids@;
        assert(windows@.take(i + 1).drop_last() =~= windows@.take(i as int));
        assert(windows@.take(i + 1).last() == windows@[i as int]);
        let w = &windows[i];
        if !w.app_id.as_str().is_empty() {
            let id = to_lowercase(w.app_id.as_str());
            ids.push(id);
            assert(strings_view(ids@) =~= strings_view(before) + seq![unicode_lowercase(w.app_id@)]);
        } else {
            assert(strings_view(ids@) =~= strings_view(before) + Seq::<Seq<char>>::empty());
        }
        i = i + 1;
    }
    assert(windows@.take(windows.len() as int) =~= windows@);
    proof {
        lemma_running_ids_are_running(windows@, ids@);
    }
    ids
}

proof fn lemma_running_ids_are_running(windows: Seq<WindowInfo>, ids: Seq<String>)
    requires
        strings_view(ids) == running_ids(windows),
    ensures
        forall|i: int|
            0 <= i < windows.len() && (#[trigger] windows[i]).app_id@.len() > 0 ==> strings_view(
                ids,
            ).contains(unicode_lowercase(windows[i].app_id@)),
        forall|k: int| #![trigger ids[k]] 0 <= k < ids.len() ==> id_running(ids[k]@, windows),
{
    assert forall|i: int|
        0 <= i < windows.len() && (#[trigger] windows[i]).app_id@.len() > 0 implies strings_view(
        ids,
    ).contains(unicode_lowercase(windows[i].app_id@)) by {
        running_ids_are_the_running_windows(windows, unicode_lowercase(windows[i].app_id@));
    }
    assert forall|k: int| #![trigger ids[k]] 0 <= k < ids.len() implies id_running(
        ids[k]@,
        windows,
    ) by {
        assert(strings_view(ids)[k] == ids[k]@);
        running_ids_are_the_running_windows(windows, ids[k]@);
    }
}

/// The running ids hold exactly the lowercased ids of the windows that have
/// one.
pub proof fn running_ids_are_the_running_windows(windows: Seq<WindowInfo>, id: Seq<char>)
    ensures
        running_ids(windows).contains(id) <==> id_running(id, windows),
    decreases windows.len(),
{
    if windows.len() > 0 {
        let init = windows.drop_last();
        running_ids_are_the_running_windows(init, id);
        let tail = if windows.last().app_id@.len() > 0 {
            seq![unicode_lowercase(windows.last().app_id@)]
        } else {
            Seq::<Seq<char>>::empty()
        };
        assert(running_ids(windows) == running_ids(init) + tail);
        if running_ids(windows).contains(id) {
            let k = choose|k: int| 0 <= k < running_ids(windows).len() && running_ids(windows)[k] == id;
            if k < running_ids(init).len() {
                assert(running_ids(init)[k] == id);
                assert(running_ids(init).contains(id));
                let i = choose|i: int|
                    0 <= i < init.len() && (#[trigger] init[i]).app_id@.len() > 0 && unicode_lowercase(
                        init[i].app_id@,
                    ) == id;
                assert(windows[i] == init[i]);
            } else {
                assert(windows[windows.len() - 1] == windows.last());
            }
        }
        if id_running(id, windows) {
            let i = choose|i: int|
                0 <= i < windows.len() && (#[trigger] windows[i]).app_id@.len() > 0
                    && unicode_lowercase(windows[i].app_id@) == id;
            if i < windows.len() - 1 {
                assert(init[i] == windows[i]);
                assert(running_ids(init).contains(id));
                let k = choose|k: int| 0 <= k < running_ids(init).len() && running_ids(init)[k] == id;
                assert(running_ids(windows)[k] == id);
            } else {
                assert(running_ids(windows)[running_ids(init).len() as int] == id);
            }
        }
    }
}

/// Whether each launcher dot shows: a dot shows while a window that
/// matches its app id (both ids lowercased) is open.
pub fn running_dot_visibility(dot_app_ids: &Vec<String>, windows: &Vec<WindowInfo>) -> (res: Vec<
    bool,
>)
    ensures
        res.len() == dot_app_ids.len(),
        forall|k: int|
            0 <= k < res.len() ==> #[trigger] res@[k] == dot_visible(dot_app_ids@[k]@, windows@),
{
    let running = running_app_ids(windows);
    let mut shown: Vec<bool> = Vec::new();
    let mut k: usize = 0;
    while k < dot_app_ids.len()
        invariant
            k <= dot_app_ids.len(),
            shown.len() == k,
            strings_view(running@) == running_ids(windows@),
            forall|m: int|
                0 <= m < k ==> #[trigger] shown@[m] == dot_visible(dot_app_ids@[m]@, windows@),
        decreases dot_app_ids.len() - k,
    {
        let dot = to_lowercase(dot_app_ids[k].as_str());
        let mut visible = false;
        let mut r: usize = 0;
        while r < running.len()
            invariant
                r <= running.len(),
                visible <==> exists|q: int| 0 <= q < r && (#[trigger] running@[q])@ == dot@,
            decreases running.len() - r,
        {
            if running[r] == dot {
                visible = true;
            }
            r = r + 1;
        }
        proof {
            if visible {
                let q = choose|q: int| 0 <= q < running.len() && (#[trigger] running@[q])@ == dot@;
                assert(strings_view(running@)[q] == running@[q]@);
                assert(running_ids(windows@)[q] == dot@);
            }
            if running_ids(windows@).contains(dot@) {
                let q = choose|q: int|
                    0 <= q < running_ids(windows@).len() && running_ids(windows@)[q] == dot@;
                assert(strings_view(running@)[q] == running@[q]@);
            }
        }
        shown.push(visible);
        k = k + 1;
    }
    shown
}

/// A launcher's dot and its click agree: for every app id, the dot shows
/// exactly when a click focuses a running window rather than spawning the
/// command.
pub proof fn dot_shows_iff_click_focuses(app_id: Seq<char>, windows: Seq<WindowInfo>)
    ensures
        dot_visible(app_id, windows) <==> has_matching_window(windows, app_id),
{
    let id = unicode_lowercase(app_id);
    running_ids_are_the_running_windows(windows, id);
    if id_running(id, windows) {
        let i = choose|i: int|
            0 <= i < windows.len() && (#[trigger] windows[i]).app_id@.len() > 0
                && unicode_lowercase(windows[i].app_id@) == id;
        assert(window_matches(windows[i], app_id));
    }
    if has_matching_window(windows, app_id) {
        let i = choose|i: int| 0 <= i < windows.len() && window_matches(#[trigger] windows[i], app_id);
        assert(unicode_lowercase(windows[i].app_id@) == id);
    }
}

/// What a pinned-app table is read by: its `name`, `exec`, `icon` and
/// `app_id` values (`None` for an item that is not a table).
pub open spec fn app_item_keys(item: OptionValue) -> Option<
    (Option<OptionValue>, Option<OptionValue>, Option<OptionValue>, Option<OptionValue>),
> {
    match item {
        OptionValue::Table(t) => Some(
            (
                table_get(t@, "name"@),
                table_get(t@, "exec"@),
                table_get(t@, "icon"@),
                table_get(t@, "app_id"@),
            ),
        ),
        _ => None,
    }
}

/// Two `apps` values read alike: equal, or arrays of equal length whose
/// items agree on the keys a pinned app is read by.
pub open spec fn apps_read_alike(a: Option<OptionValue>, b: Option<OptionValue>) -> bool {
    ||| a == b
    ||| match (a, b) {
        (Some(OptionValue::Array(x)), Some(OptionValue::Array(y))) => {
            &&& x@.len() == y@.len()
            &&& forall|i: int| 0 <= i < x@.len() ==> app_item_keys(#[trigger] x@[i]) == app_item_keys(y@[i])
        },
        _ => false,
    }
}

/// A pinned-app table is read only by its `name`, `exec`, `icon` and
/// `app_id` keys: other keys change nothing.
pub proof fn app_item_reads_only_its_keys(a: OptionValue, b: OptionValue)
    requires
        app_item_keys(a) == app_item_keys(b),
    ensures
        pinned_app_of(a) == pinned_app_of(b),
{
}

proof fn lemma_pinned_apps_of_pointwise(x: Seq<OptionValue>, y: Seq<OptionValue>)
    requires
        x.len() == y.len(),
        forall|i: int| 0 <= i < x.len() ==> app_item_keys(#[trigger] x[i]) == app_item_keys(y[i]),
    ensures
        pinned_apps_of(x) == pinned_apps_of(y),
    decreases x.len(),
{
    if x.len() > 0 {
        let (xi, yi) = (x.drop_last(), y.drop_last());
        assert forall|i: int| 0 <= i < xi.len() implies app_item_keys(#[trigger] xi[i]) == app_item_keys(
            yi[i],
        ) by {
            assert(xi[i] == x[i] && yi[i] == y[i]);
        }
        lemma_pinned_apps_of_pointwise(xi, yi);
        app_item_reads_only_its_keys(x[x.len() - 1], y[y.len() - 1]);
    }
}

/// A launcher section is read only by its `apps` and `icon_size` keys, and
/// each pinned app only by its own four keys: extra keys, at the top or in
/// the app tables, change neither the apps nor the icon size.
pub proof fn extra_options_change_nothing(o1: Seq<(String, OptionValue)>, o2: Seq<(String, OptionValue)>)
    requires
        table_get(o1, "icon_size"@) == table_get(o2, "icon_size"@),
        apps_read_alike(table_get(o1, "apps"@), table_get(o2, "apps"@)),
    ensures
        configured_icon_size(o1) == configured_icon_size(o2),
        configured_apps(o1) == configured_apps(o2),
{
    match (table_get(o1, "apps"@), table_get(o2, "apps"@)) {
        (Some(OptionValue::Array(x)), Some(OptionValue::Array(y))) => {
            if table_get(o1, "apps"@) != table_get(o2, "apps"@) {
                lemma_pinned_apps_of_pointwise(x@, y@);
            }
        },
        _ => {},
    }
}

/// The configured icon size is the `icon_size` integer cut to `i32`, kept
/// as it is from `MIN_ICON_SIZE` up and raised to `MIN_ICON_SIZE` below it;
/// without an integer `icon_size` there is none.
pub proof fn configured_icon_size_is_clamped_below_only(options: Seq<(String, OptionValue)>)
    ensures
        integer_of(table_get(options, "icon_size"@)) is None ==> configured_icon_size(options) is None,
        integer_of(table_get(options, "icon_size"@)) matches Some(v) ==> {
            &&& (v as i32) >= MIN_ICON_SIZE ==> configured_icon_size(options) == Some(v as i32)
            &&& (v as i32) < MIN_ICON_SIZE ==> configured_icon_size(options) == Some(MIN_ICON_SIZE)
        },
{
}

/// How one item of the `apps` array is read. An item that is not a table,
/// or lacks a string `name` or `exec`, gives no app. Otherwise the app has
/// that name and command; its icon is the configured icon exactly as
/// written when that is a non-empty string, and the lowercased name when it
/// is missing, empty or not a string; its matching id is the lowercased
/// `app_id` when that is a string, and the lowercased name otherwise.
pub proof fn pinned_app_reads_item(item: OptionValue)
    ensures
        item !is Table ==> pinned_app_of(item) is None,
        item matches OptionValue::Table(t) ==> {
            let name = str_of(table_get(t@, "name"@));
            let exec = str_of(table_get(t@, "exec"@));
            let icon = str_of(table_get(t@, "icon"@));
            let app_id = str_of(table_get(t@, "app_id"@));
            let app = pinned_app_of(item).unwrap();
            &&& (name is None || exec is None) ==> pinned_app_of(item) is None
            &&& (name is Some && exec is Some) ==> {
                &&& pinned_app_of(item) is Some
                &&& app.name == name.unwrap()
                &&& app.command == exec.unwrap()
                &&& (icon is Some && icon.unwrap().len() > 0) ==> app.icon == icon.unwrap()
                &&& !(icon is Some && icon.unwrap().len() > 0) ==> app.icon == unicode_lowercase(
                    name.unwrap(),
                )
                &&& app_id is Some ==> app.app_id == unicode_lowercase(app_id.unwrap())
                &&& app_id is None ==> app.app_id == unicode_lowercase(name.unwrap())
            }
        },
{
}

/// Reading an `apps` array item by item: the apps of two arrays one after
/// the other are the apps of the first followed by those of the second, and
/// a single item gives its app, or nothing when it describes none.
pub proof fn pinned_apps_of_item_by_item(x: Seq<OptionValue>, y: Seq<OptionValue>, item: OptionValue)
    ensures
        pinned_apps_of(x + y) == pinned_apps_of(x) + pinned_apps_of(y),
        pinned_apps_of(seq![item]) == match pinned_app_of(item) {
            Some(a) => seq![a],
            None => Seq::<PinnedAppView>::empty(),
        },
    decreases y.len(),
{
    assert(seq![item].drop_last() =~= Seq::<OptionValue>::empty());
    assert(pinned_apps_of(Seq::<OptionValue>::empty()) == Seq::<PinnedAppView>::empty());
    if y.len() == 0 {
        assert(x + y =~= x);
        assert(pinned_apps_of(x) + pinned_apps_of(y) =~= pinned_apps_of(x));
    } else {
        pinned_apps_of_item_by_item(x, y.drop_last(), item);
        assert((x + y).drop_last() =~= x + y.drop_last());
        assert((x + y).last() == y.last());
        let tail = match pinned_app_of(y.last()) {
            Some(a) => seq![a],
            None => Seq::<PinnedAppView>::empty(),
        };
        assert(pinned_apps_of(x + y) == pinned_apps_of(x + y.drop_last()) + tail);
        assert(pinned_apps_of(y) == pinned_apps_of(y.drop_last()) + tail);
        assert(pinned_apps_of(x) + pinned_apps_of(y.drop_last()) + tail =~= pinned_apps_of(x) + (
        pinned_apps_of(y.drop_last()) + tail));
    }
}

/// The icon size used is the configured one when there is one, else the
/// theme's default, raised to `MIN_ICON_SIZE` when below it and unchanged
/// otherwise.
pub proof fn resolved_icon_size_prefers_configured(configured: Option<i32>, theme_default: i32)
    ensures
        resolved_icon_size(configured, theme_default) >= MIN_ICON_SIZE,
        configured matches Some(c) ==> (c >= MIN_ICON_SIZE ==> resolved_icon_size(
            configured,
            theme_default,
        ) == c),
        configured matches Some(c) ==> (c < MIN_ICON_SIZE ==> resolved_icon_size(
            configured,
            theme_default,
        ) == MIN_ICON_SIZE),
        configured is None ==> (theme_default >= MIN_ICON_SIZE ==> resolved_icon_size(
            configured,
            theme_default,
        ) == theme_default),
        configured is None ==> (theme_default < MIN_ICON_SIZE ==> resolved_icon_size(
            configured,
            theme_default,
        ) == MIN_ICON_SIZE),
{
}

/// Whether a window belongs to a pinned app depends only on the two ids'
/// lowercase forms, and a window without an application id belongs to no
/// app.
pub proof fn window_matching_ignores_case(w: WindowInfo, a: Seq<char>, b: Seq<char>)
    ensures
        unicode_lowercase(a) == unicode_lowercase(b) ==> (window_matches(w, a) == window_matches(
            w,
            b,
        )),
        w.app_id@.len() == 0 ==> !window_matches(w, a),
        w.app_id@.len() > 0 && unicode_lowercase(w.app_id@) == unicode_lowercase(a) ==> window_matches(
            w,
            a,
        ),
{
}

/// The apps of a launcher section come from its `apps` array, item by item,
/// and there are none when `apps` is missing or not an array.
pub proof fn apps_come_from_apps_array(options: Seq<(String, OptionValue)>)
    ensures
        table_get(options, "apps"@) matches Some(OptionValue::Array(items)) ==> configured_apps(options)
            == pinned_apps_of(items@),
        !(table_get(options, "apps"@) matches Some(OptionValue::Array(_))) ==> configured_apps(options)
            == Seq::<PinnedAppView>::empty(),
        configured_apps(options).len() <= match table_get(options, "apps"@) {
            Some(OptionValue::Array(items)) => items@.len(),
            _ => 0,
        },
{
    match table_get(options, "apps"@) {
        Some(OptionValue::Array(items)) => pinned_apps_at_most_one_per_item(items@),
        _ => {},
    }
}

/// Each item gives at most one app.
pub proof fn pinned_apps_at_most_one_per_item(items: Seq<OptionValue>)
    ensures
        pinned_apps_of(items).len() <= items.len(),
    decreases items.len(),
{
    if items.len() > 0 {
        pinned_apps_at_most_one_per_item(items.drop_last());
    }
}

} // verus!
