//! The monitor's view state, driven by key presses, and its rolling
//! metric histories.

use vstd::prelude::*;

use crate::settings::{spec_next_theme, Settings};
use crate::theme::{spec_theme, MizuTheme};

verus! {

/// How many samples a rolling history keeps.
pub const HISTORY_LEN: usize = 60;

/// The three layouts: overview, CPU and network/disk.
pub const TAB_COUNT: u8 = 3;

/// What the monitor shows and how: the active layout, the settings and the
/// theme built from them.
#[derive(Debug, Clone, Copy, PartialEq, Eq, Structural)]
pub struct App {
    pub active_tab: u8,
    pub settings: Settings,
    pub theme: MizuTheme,
}

/// The theme on screen is the one the settings name, and the tab is one of
/// the three layouts.
pub open spec fn app_wf(a: App) -> bool {
    &&& a.theme == spec_theme(a.settings.theme)
    &&& a.active_tab < TAB_COUNT
}

/// The state the monitor starts in.
pub open spec fn spec_new_app(settings: Settings) -> App {
    App { active_tab: 0, settings, theme: spec_theme(settings.theme) }
}

/// The tab a key asks for, with any tab beyond the last one falling back to
/// the overview.
pub open spec fn spec_clamp_tab(tab: u8) -> u8 {
    if tab < TAB_COUNT {
        tab
    } else {
        0
    }
}

pub open spec fn spec_set_tab(a: App, tab: u8) -> App {
    App { active_tab: spec_clamp_tab(tab), ..a }
}

pub open spec fn spec_cycle_theme(a: App) -> App {
    let name = spec_next_theme(a.settings.theme);
    App { settings: Settings { theme: name, ..a.settings }, theme: spec_theme(name), ..a }
}

pub open spec fn spec_toggle_flow(a: App) -> App {
    App { settings: Settings { flow_enabled: !a.settings.flow_enabled, ..a.settings }, ..a }
}

impl App {
    /// The state the monitor starts in: the overview, with the theme the
    /// settings name.
    pub fn new(settings: Settings) -> (a: App)
        ensures
            a == spec_new_app(settings),
            app_wf(a),
    {
        App { active_tab: 0, settings, theme: MizuTheme::from_name(settings.theme) }
    }

    /// Switches layout; a tab beyond the last one selects the overview.
    pub fn set_tab(&mut self, tab: u8)
        ensures
            *final(self) == spec_set_tab(*old(self), tab),
            app_wf(*old(self)) ==> app_wf(*final(self)),
    {
        self.active_tab = if tab < TAB_COUNT {
            tab
        } else {
            0
        };
    }

    /// Moves the settings and the screen to the next theme.
    pub fn cycle_theme(&mut self)
        ensures
            *final(self) == spec_cycle_theme(*old(self)),
            app_wf(*old(self)) ==> app_wf(*final(self)),
    {
        self.settings.theme = self.settings.theme.next();
        self.theme = MizuTheme::from_name(self.settings.theme);
    }

    /// Turns the flow animation on or off.
    pub fn toggle_flow(&mut self)
        ensures
            *final(self) == spec_toggle_flow(*old(self)),
            app_wf(*old(self)) ==> app_wf(*final(self)),
    {
        self.settings.flow_enabled = !self.settings.flow_enabled;
    }
}

/// What a key press asks of the main loop.
#[derive(Debug, Clone, Copy, PartialEq, Eq, Structural)]
pub enum KeyOutcome {
    /// Leave the monitor.
    Quit,
    /// The state changed; `save` says whether the settings changed and are to
    /// be written back.
    Changed { save: bool },
    /// The key means nothing.
    Ignored,
}

/// Whether a key quits: `q`, or `c` with Control as the only modifier.
pub open spec fn is_quit_key(key: char, ctrl_only: bool) -> bool {
    key == 'q' || (key == 'c' && ctrl_only)
}

/// The state after a key press, and what the main loop is to do.
pub open spec fn spec_on_key(a: App, key: char, ctrl_only: bool) -> (App, KeyOutcome) {
    if is_quit_key(key, ctrl_only) {
        (a, KeyOutcome::Quit)
    } else if key == '1' {
        (spec_set_tab(a, 0), KeyOutcome::Changed { save: false })
    } else if key == '2' {
        (spec_set_tab(a, 1), KeyOutcome::Changed { save: false })
    } else if key == '3' {
        (spec_set_tab(a, 2), KeyOutcome::Changed { save: false })
    } else if key == 't' {
        (spec_cycle_theme(a), KeyOutcome::Changed { save: true })
    } else if key == 'f' {
        (spec_toggle_flow(a), KeyOutcome::Changed { save: true })
    } else {
        (a, KeyOutcome::Ignored)
    }
}

impl App {
    /// Handles a pressed character key (`ctrl_only` when Control is the
    /// only modifier held): `q` or Control-`c` quits, `1`, `2`, `3` pick a
    /// layout, `t` cycles the theme and `f` toggles the flow; the last two
    /// change the settings, which are then to be saved.
    pub fn on_key(&mut self, key: char, ctrl_only: bool) -> (o: KeyOutcome)
        ensures
            (*final(self), o) == spec_on_key(*old(self), key, ctrl_only),
            app_wf(*old(self)) ==> app_wf(*final(self)),
    {
        if key == 'q' || (key == 'c' && ctrl_only) {
            KeyOutcome::Quit
        } else if key == '1' {
            self.set_tab(0);
            KeyOutcome::Changed { save: false }
        } else if key == '2' {
            self.set_tab(1);
            KeyOutcome::Changed { save: false }
        } else if key == '3' {
            self.set_tab(2);
            KeyOutcome::Changed { save: false }
        } else if key == 't' {
            self.cycle_theme();
            KeyOutcome::Changed { save: true }
        } else if key == 'f' {
            self.toggle_flow();
            KeyOutcome::Changed { save: true }
        } else {
            KeyOutcome::Ignored
        }
    }
}

/// Exactly the keys `t` and `f` change the settings; a quitting or ignored
/// key leaves the state as it was.
pub proof fn lemma_keys_that_save(a: App, key: char, ctrl_only: bool)
    ensures
        spec_on_key(a, key, ctrl_only).1 == (KeyOutcome::Changed { save: true }) <==> (key == 't'
            || key == 'f') && !is_quit_key(key, ctrl_only),
        spec_on_key(a, key, ctrl_only).0.settings != a.settings ==> spec_on_key(a, key, ctrl_only).1
            == (KeyOutcome::Changed { save: true }),
        (spec_on_key(a, key, ctrl_only).1 is Quit || spec_on_key(a, key, ctrl_only).1 is Ignored)
            ==> spec_on_key(a, key, ctrl_only).0 == a,
{
}

/// Choosing tab `t` shows tab `t` when it is one of the three (0, 1, 2), and
/// the overview (tab 0) for any larger number; nothing else changes.
pub proof fn lemma_set_tab_result(a: App, t: u8)
    ensures
        t < 3 ==> spec_set_tab(a, t).active_tab == t,
        t >= 3 ==> spec_set_tab(a, t).active_tab == 0,
        spec_set_tab(a, t).settings == a.settings,
        spec_set_tab(a, t).theme == a.theme,
        spec_set_tab(spec_set_tab(a, t), t) == spec_set_tab(a, t),
{
}

/// Three theme changes bring the monitor back to the state it was in, and
/// toggling the flow twice undoes itself.
pub proof fn lemma_toggles_undo(a: App)
    ensures
        spec_cycle_theme(spec_cycle_theme(spec_cycle_theme(a))) == a <== app_wf(a),
        spec_toggle_flow(spec_toggle_flow(a)) == a,
{
    crate::settings::lemma_theme_cycle_period(a.settings.theme);
}

/// A history after recording `x`: the sample is appended, and the oldest one
/// dropped once more than `HISTORY_LEN` are held.
pub open spec fn spec_push_cap<T>(h: Seq<T>, x: T) -> Seq<T> {
    if h.len() + 1 > HISTORY_LEN {
        h.push(x).drop_first()
    } else {
        h.push(x)
    }
}

/// Records a sample in a rolling history.
pub fn push_cap<T>(v: &mut Vec<T>, x: T)
    ensures
        final(v)@ == spec_push_cap(old(v)@, x),
{
    v.push(x);
    if v.len() > HISTORY_LEN {
        v.remove(0);
    }
}

/// A history never grows beyond `HISTORY_LEN` once within it, a full history
/// stays full, and it always ends with the newest sample, the older ones
/// keeping their order.
pub proof fn lemma_push_cap_window<T>(h: Seq<T>, x: T)
    ensures
        h.len() <= HISTORY_LEN ==> spec_push_cap(h, x).len() <= HISTORY_LEN,
        h.len() == HISTORY_LEN ==> spec_push_cap(h, x).len() == HISTORY_LEN,
        spec_push_cap(h, x).last() == x,
        h.len() < HISTORY_LEN ==> spec_push_cap(h, x) == h.push(x),
        h.len() >= HISTORY_LEN ==> spec_push_cap(h, x) == h.drop_first().push(x),
{
    if h.len() >= HISTORY_LEN {
        assert(h.push(x).drop_first() =~= h.drop_first().push(x));
    }
}

} // verus!
