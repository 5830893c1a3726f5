//! Plugin runtime: discovery and compilation of user-supplied extension
//! scripts, translation of host input events into a stable typed surface,
//! a bridge exposing that surface to the embedded scripting engine, and a
//! dispatch protocol that invokes optional event handlers with per-plugin
//! error isolation.
//!
//! The manager owns the loaded plugins in load order. Every failure is
//! isolated to the smallest unit it can be attributed to — one entry, one
//! plugin, one handler call — and reported to the caller rather than
//! propagated; the caller decides how to log it.
//!
//! There is deliberately no timeout or cancellation around handler calls:
//! a non-terminating script handler blocks the host event pipeline. That
//! liveness risk is inherited from the design and documented, not fixed.
pub mod base64;
pub mod clipboard;
pub mod events;
pub mod exported;
pub mod plugin;
pub mod text;

use crate::events::HostEvent;
use crate::plugin::{
    compiled_program, spec_stem, valid_plugin_file_name, LoadError, Plugin, PluginSource,
};
use vstd::prelude::*;

verus! {

/// What became of one directory entry during a load.
#[derive(Debug)]
pub enum LoadReport {
    /// The entry compiled; a plugin of this name was appended.
    Loaded { name: String },
    /// The entry was skipped, for this reason; loading went on.
    Skipped { error: LoadError },
}

/// A plugin whose start run failed; it stays loaded and dispatchable.
#[derive(Clone, Debug)]
pub struct StartFailure {
    pub plugin: String,
    pub message: String,
}

/// How dispatching one event to one plugin went.
#[derive(Clone, Debug)]
pub enum DispatchOutcome {
    /// The event was delivered: the handler ran, or the plugin defines
    /// none (a silent no-op, not an error).
    Delivered,
    /// The handler exists and failed; names the handler and carries the
    /// underlying message.
    Failed { handler: String, message: String },
}

/// The outcome of dispatching one event to one plugin, in load order.
#[derive(Clone, Debug)]
pub struct DispatchReport {
    pub plugin: String,
    pub outcome: DispatchOutcome,
}

/// Whether a load report is the one this entry must produce: loaded under
/// the entry's stem exactly when the entry is valid, readable and its
/// source compiles; otherwise skipped with the matching error kind. The
/// three cases are mutually exclusive, so the entry forces its report.
pub open spec fn report_matches(entry: PluginSource, report: LoadReport) -> bool {
    match report {
        LoadReport::Loaded { name } => valid_plugin_file_name(entry.file_name@)
            && entry.script is Ok && compiled_program(entry.script->Ok_0@) is Some && name@
            == spec_stem(entry.file_name@),
        LoadReport::Skipped { error } => match error {
            LoadError::Discovery { path, .. } => path@ == entry.file_name@ && (
            !valid_plugin_file_name(entry.file_name@) || entry.script is Err),
            LoadError::Compile { plugin, .. } => valid_plugin_file_name(entry.file_name@)
                && entry.script is Ok && compiled_program(entry.script->Ok_0@) is None && plugin@
                == spec_stem(entry.file_name@),
        },
    }
}

/// The names of the loaded entries, in report order.
pub open spec fn loaded_names(reports: Seq<LoadReport>) -> Seq<Seq<char>>
    decreases reports.len(),
{
    if reports.len() == 0 {
        Seq::<Seq<char>>::empty()
    } else {
        (match reports[0] {
            LoadReport::Loaded { name } => seq![name@],
            LoadReport::Skipped { .. } => Seq::<Seq<char>>::empty(),
        }) + loaded_names(reports.drop_first())
    }
}

/// Appending one report extends the loaded names by that report's name, if
/// it has one.
pub proof fn lemma_loaded_names_push(reports: Seq<LoadReport>, report: LoadReport)
    ensures
        loaded_names(reports.push(report)) == loaded_names(reports) + (match report {
            LoadReport::Loaded { name } => seq![name@],
            LoadReport::Skipped { .. } => Seq::<Seq<char>>::empty(),
        }),
    decreases reports.len(),
{
    let tail = match report {
        LoadReport::Loaded { name } => seq![name@],
        LoadReport::Skipped { .. } => Seq::<Seq<char>>::empty(),
    };
    if reports.len() == 0 {
        assert(reports.push(report).drop_first() =~= reports);
        assert(loaded_names(reports.push(report)) =~= loaded_names(reports) + tail);
    } else {
        lemma_loaded_names_push(reports.drop_first(), report);
        assert(reports.push(report).drop_first() =~= reports.drop_first().push(report));
        assert(reports.push(report)[0] == reports[0]);
        assert(loaded_names(reports.push(report)) =~= loaded_names(reports) + tail);
    }
}

/// Every loaded name is the stem of some entry whose report says it was
/// loaded.
pub proof fn lemma_loaded_names_are_loaded_stems(
    entries: Seq<PluginSource>,
    reports: Seq<LoadReport>,
)
    requires
        entries.len() == reports.len(),
        forall|i: int| 0 <= i < entries.len() ==> report_matches(entries[i], #[trigger] reports[i]),
    ensures
        forall|x: Seq<char>|
            loaded_names(reports).contains(x) ==> exists|j: int|
                0 <= j < entries.len() && (#[trigger] reports[j] matches LoadReport::Loaded {
                    ..
                }) && x == spec_stem(entries[j].file_name@),
    decreases reports.len(),
{
    if reports.len() > 0 {
        lemma_loaded_names_are_loaded_stems(entries.drop_first(), reports.drop_first());
        assert forall|x: Seq<char>| loaded_names(reports).contains(x) implies exists|j: int|
            0 <= j < entries.len() && (#[trigger] reports[j] matches LoadReport::Loaded { .. }) && x
                == spec_stem(entries[j].file_name@) by {
            let head = match reports[0] {
                LoadReport::Loaded { name } => seq![name@],
                LoadReport::Skipped { .. } => Seq::<Seq<char>>::empty(),
            };
            assert(loaded_names(reports) == head + loaded_names(reports.drop_first()));
            if head.len() > 0 && x == head[0] {
                assert(report_matches(entries[0], reports[0]));
                assert((reports[0] matches LoadReport::Loaded { .. }) && x == spec_stem(
                    entries[0].file_name@,
                ));
            } else {
                assert(loaded_names(reports.drop_first()).contains(x));
                let j = choose|j: int|
                    0 <= j < entries.drop_first().len() && (#[trigger] reports.drop_first()[j]
                        matches LoadReport::Loaded { .. }) && x == spec_stem(
                        entries.drop_first()[j].file_name@,
                    );
                assert((reports[j + 1] matches LoadReport::Loaded { .. }) && x == spec_stem(
                    entries[j + 1].file_name@,
                ));
            }
        }
    }
}

/// A source file that does not load never contributes a plugin identity:
/// where an entry was skipped and no other entry shares its stem, the
/// loaded names hold no trace of it.
pub proof fn lemma_skipped_entry_not_loaded(
    entries: Seq<PluginSource>,
    reports: Seq<LoadReport>,
    k: int,
)
    requires
        entries.len() == reports.len(),
        forall|i: int| 0 <= i < entries.len() ==> report_matches(entries[i], #[trigger] reports[i]),
        0 <= k < reports.len(),
        reports[k] matches LoadReport::Skipped { .. },
        forall|j: int|
            0 <= j < entries.len() && j != k ==> spec_stem(#[trigger] entries[j].file_name@)
                != spec_stem(entries[k].file_name@),
    ensures
        !loaded_names(reports).contains(spec_stem(entries[k].file_name@)),
{
    let x = spec_stem(entries[k].file_name@);
    if loaded_names(reports).contains(x) {
        lemma_loaded_names_are_loaded_stems(entries, reports);
        let j = choose|j: int|
            0 <= j < entries.len() && (#[trigger] reports[j] matches LoadReport::Loaded { .. }) && x
                == spec_stem(entries[j].file_name@);
        assert(j != k);
        assert(false);
    }
}

/// The handler name the manager looks up for an event of this category.
pub open spec fn spec_handler_name(event: HostEvent) -> Seq<char> {
    match event {
        HostEvent::Key(_) => "on_key_press"@,
        HostEvent::Mouse(_) => "on_mouse_event"@,
        HostEvent::Resize(_, _) => "on_resize"@,
    }
}

/// The ordered collection of loaded plugins. Load order is directory
/// order; after loading, the collection only ever changes by further
/// loads.
pub struct PluginManager {
    plugins: Vec<Plugin>,
}

impl Default for PluginManager {
    fn default() -> (r: Self)
        ensures
            r.names() == Seq::<Seq<char>>::empty(),
    {
        PluginManager::new()
    }
}

impl PluginManager {
    /// The loaded plugins' names, in load order.
    pub closed spec fn names(&self) -> Seq<Seq<char>> {
        self.plugins@.map_values(|p: Plugin| p.name@)
    }

    pub fn new() -> (r: Self)
        ensures
            r.names() == Seq::<Seq<char>>::empty(),
    {
        let r = PluginManager { plugins: Vec::new() };
        proof {
            assert(r.names() =~= Seq::<Seq<char>>::empty());
        }
        r
    }

    /// Load every entry, in order: each valid `rhai` source that compiles
    /// becomes one plugin, appended in entry order; every other entry is
    /// skipped with an error naming it, and loading continues. One report
    /// per entry says which way it went.
    pub fn load_plugins(&mut self, entries: Vec<PluginSource>) -> (reports: Vec<LoadReport>)
        ensures
            reports@.len() == entries@.len(),
            forall|i: int|
                0 <= i < entries@.len() ==> report_matches(entries@[i], #[trigger] reports@[i]),
            final(self).names() == old(self).names() + loaded_names(reports@),
    {
        let mut reports: Vec<LoadReport> = Vec::new();
        let mut i: usize = 0;
        proof {
            assert(old(self).names() + loaded_names(reports@) =~= old(self).names());
        }
        while i < entries.len()
            invariant
                i <= entries@.len(),
                reports@.len() == i,
                forall|j: int| 0 <= j < i ==> report_matches(entries@[j], #[trigger] reports@[j]),
                self.names() == old(self).names() + loaded_names(reports@),
            decreases entries@.len() - i,
        {
            let ghost reports_before = reports@;
            let ghost names_before = self.names();
            let report = match Plugin::try_from(&entries[i]) {
                Ok(plugin) => {
                    let name = plugin.name.clone();
                    self.plugins.push(plugin);
                    proof {
                        assert(self.names() =~= names_before + seq![name@]);
                    }
                    LoadReport::Loaded { name }
                },
                Err(error) => LoadReport::Skipped { error },
            };
            reports.push(report);
            proof {
                lemma_loaded_names_push(reports_before, reports@[i as int]);
                assert(self.names() =~= old(self).names() + loaded_names(reports@));
            }
            i = i + 1;
        }
        reports
    }

    /// Run every loaded plugin's program once, in load order. A failure is
    /// reported, names its plugin, and blocks neither the remaining
    /// plugins' starts nor later dispatch to the failed plugin.
    pub fn start_plugins(&mut self) -> (failures: Vec<StartFailure>)
        ensures
            final(self).names() == old(self).names(),
            forall|i: int|
                0 <= i < failures@.len() ==> old(self).names().contains(
                    #[trigger] failures@[i].plugin@,
                ),
    {
        let ghost original = self.names();
        let mut failures: Vec<StartFailure> = Vec::new();
        let mut done: Vec<Plugin> = Vec::new();
        while self.plugins.len() > 0
            invariant
                done@.len() + self.plugins@.len() == original.len(),
                original == old(self).names(),
                forall|j: int| 0 <= j < done@.len() ==> #[trigger] done@[j].name@ == original[j],
                forall|j: int|
                    0 <= j < self.plugins@.len() ==> #[trigger] self.plugins@[j].name@ == original[
                        done@.len() + j
                    ],
                forall|i: int|
                    0 <= i < failures@.len() ==> original.contains(#[trigger] failures@[i].plugin@),
            decreases self.plugins@.len(),
        {
            let ghost k = done@.len();
            let mut plugin = self.plugins.remove(0);
            if let Err(message) = plugin.start() {
                let failure = StartFailure { plugin: plugin.name.clone(), message };
                proof {
                    assert(original[k as int] == failure.plugin@);
                    assert(original.contains(failure.plugin@));
                }
                failures.push(failure);
            }
            done.push(plugin);
        }
        self.plugins = done;
        proof {
            assert(self.names() =~= original);
        }
        failures
    }

    /// Translate one host event and dispatch it to every loaded plugin, in
    /// load order, delivering to each regardless of what happened at the
    /// ones before: one report per plugin. A missing handler counts as
    /// delivered; a failed handler is reported under the handler name of
    /// this event category.
    pub fn handle_term_event(&mut self, term_event: HostEvent) -> (reports: Vec<DispatchReport>)
        ensures
            final(self).names() == old(self).names(),
            reports@.len() == old(self).names().len(),
            forall|i: int|
                0 <= i < reports@.len() ==> #[trigger] reports@[i].plugin@ == old(self).names()[i],
            forall|i: int|
                0 <= i < reports@.len() ==> (#[trigger] reports@[i].outcome matches
                DispatchOutcome::Failed { handler, .. } ==> handler@ == spec_handler_name(
                    term_event,
                )),
    {
        let ghost original = self.names();
        let mut reports: Vec<DispatchReport> = Vec::new();
        let mut done: Vec<Plugin> = Vec::new();
        while self.plugins.len() > 0
            invariant
                done@.len() + self.plugins@.len() == original.len(),
                original == old(self).names(),
                forall|j: int| 0 <= j < done@.len() ==> #[trigger] done@[j].name@ == original[j],
                forall|j: int|
                    0 <= j < self.plugins@.len() ==> #[trigger] self.plugins@[j].name@ == original[
                        done@.len() + j
                    ],
                reports@.len() == done@.len(),
                forall|i: int|
                    0 <= i < reports@.len() ==> #[trigger] reports@[i].plugin@ == original[i],
                forall|i: int|
                    0 <= i < reports@.len() ==> (#[trigger] reports@[i].outcome matches
                    DispatchOutcome::Failed { handler, .. } ==> handler@ == spec_handler_name(
                        term_event,
                    )),
            decreases self.plugins@.len(),
        {
            let mut plugin = self.plugins.remove(0);
            let result = match term_event {
                HostEvent::Key(event) => plugin.on_key_press(event),
                HostEvent::Mouse(event) => plugin.on_mouse_event(event),
                HostEvent::Resize(cols, rows) => plugin.on_resize(cols, rows),
            };
            let outcome = match result {
                Ok(_) => DispatchOutcome::Delivered,
                Err(e) => DispatchOutcome::Failed { handler: e.handler, message: e.message },
            };
            reports.push(DispatchReport { plugin: plugin.name.clone(), outcome });
            done.push(plugin);
        }
        self.plugins = done;
        proof {
            assert(self.names() =~= original);
        }
        reports
    }
}

} // verus!
