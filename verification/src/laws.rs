//! The laws of the configuration core, stated and proved over the transition
//! relations and the text-building functions.

use vstd::prelude::*;

use crate::configuration::ConfigView;
use crate::configuration::default_config_text;
use crate::errors::spec_no_such_file_error;
use crate::lifecycle::LoadEventView;
use crate::lifecycle::LoadStateView;
use crate::lifecycle::StoreEventView;
use crate::lifecycle::StoreStateView;
use crate::lifecycle::load_transition;
use crate::lifecycle::store_transition;

verus! {

/// Whether `needle` occurs in `hay` as a contiguous run.
pub open spec fn text_contains(hay: Seq<char>, needle: Seq<char>) -> bool {
    exists|i: int|
        0 <= i && i + needle.len() <= hay.len() && #[trigger] hay.subrange(i, i + needle.len())
            == needle
}

/// The state a load run ends in, starting from `s` and consuming `events` in
/// order.
pub open spec fn load_run(s: LoadStateView, events: Seq<LoadEventView>) -> LoadStateView
    decreases events.len(),
{
    if events.len() == 0 {
        s
    } else {
        load_run(load_transition(s, events[0]), events.drop_first())
    }
}

/// What a run from `s` must have consumed for its final state to be
/// `Ready { config }`: from the resolution states, the reader's record and
/// both directory confirmations; once a phase is behind, only what is still
/// ahead of it.
pub open spec fn ready_evidence(
    s: LoadStateView,
    events: Seq<LoadEventView>,
    config: ConfigView,
) -> bool {
    match s {
        LoadStateView::Ready { config: c } => c == config,
        LoadStateView::MakingThemesDir { config: c } => c == config && events.contains(
            LoadEventView::ThemesDirMade { error: None },
        ),
        LoadStateView::MakingDbDir { config: c } => c == config && events.contains(
            LoadEventView::DbDirMade { error: None },
        ) && events.contains(LoadEventView::ThemesDirMade { error: None }),
        LoadStateView::Failed { .. } => false,
        _ => events.contains(LoadEventView::Fetched { result: Ok(config) }) && events.contains(
            LoadEventView::DbDirMade { error: None },
        ) && events.contains(LoadEventView::ThemesDirMade { error: None }),
    }
}

/// A run that ends `Ready` consumed the evidence its starting state still
/// owed.
pub proof fn lemma_ready_evidence(s: LoadStateView, events: Seq<LoadEventView>, config: ConfigView)
    requires
        load_run(s, events) == (LoadStateView::Ready { config }),
    ensures
        ready_evidence(s, events, config),
    decreases events.len(),
{
    if events.len() == 0 {
    } else {
        let s1 = load_transition(s, events[0]);
        lemma_ready_evidence(s1, events.drop_first(), config);
        let e0 = events[0];
        assert(events.contains(e0)) by {
            assert(0 <= 0 < events.len() && events[0] == e0);
        }
        assert forall|e: LoadEventView| #[trigger]
            events.drop_first().contains(e) implies events.contains(e) by {
            let i = choose|i: int|
                0 <= i < events.drop_first().len() && events.drop_first()[i] == e;
            assert(events[i + 1] == e);
        }
    }
}

/// Law: after any successful load — any run of the load lifecycle from
/// resolution to `Ready` — the returned record is exactly the one the
/// configuration reader produced, and the creation of both its database
/// directory and its themes directory was confirmed during the run.
pub proof fn lemma_ready_only_after_provisioning(events: Seq<LoadEventView>, config: ConfigView)
    requires
        load_run(LoadStateView::Resolving, events) == (LoadStateView::Ready { config }),
    ensures
        events.contains(LoadEventView::Fetched { result: Ok(config) }),
        events.contains(LoadEventView::DbDirMade { error: None }),
        events.contains(LoadEventView::ThemesDirMade { error: None }),
{
    lemma_ready_evidence(LoadStateView::Resolving, events, config);
}

/// Law: an override that is set and names an existing path takes strict
/// precedence — the load reads exactly the file at that path and the store
/// writes exactly to it; the platform default is never consulted.
pub proof fn lemma_override_takes_precedence(config: ConfigView, file: Seq<char>)
    ensures
        load_transition(
            LoadStateView::Resolving,
            LoadEventView::Resolved { env_value: Some(file), override_exists: true },
        ) == (LoadStateView::ReadingOverride { path: file }),
        store_transition(
            StoreStateView::Resolving { config },
            StoreEventView::Resolved { env_value: Some(file), override_exists: true },
        ) == (StoreStateView::Writing { target: Some(file), config }),
{
}

/// Law: an override that is set but names no existing path fails both the
/// load and the store with a `ConfigError` whose message and whose suggestion
/// each carry the given path literally.
pub proof fn lemma_missing_override_fails(config: ConfigView, file: Seq<char>)
    ensures
        load_transition(
            LoadStateView::Resolving,
            LoadEventView::Resolved { env_value: Some(file), override_exists: false },
        ) == (LoadStateView::Failed { error: spec_no_such_file_error(file) }),
        store_transition(
            StoreStateView::Resolving { config },
            StoreEventView::Resolved { env_value: Some(file), override_exists: false },
        ) == (StoreStateView::Failed { error: spec_no_such_file_error(file) }),
        spec_no_such_file_error(file).kind matches
            crate::errors::LostTheWayView::ConfigError { message } && text_contains(message, file),
        spec_no_such_file_error(file).suggestion matches Some(s) && text_contains(s, file),
{
    let message = crate::errors::no_such_file_text(file);
    let lead = "No such file "@.len() as int;
    assert(message.subrange(lead, lead + file.len()) =~= file);
    assert(0 <= lead && lead + file.len() <= message.len() && message.subrange(
        lead,
        lead + file.len(),
    ) == file);
    let s = crate::errors::default_config_suggestion_text(file);
    let open_len = "Use `the-way config default "@.len() as int;
    assert(s.subrange(open_len, open_len + file.len()) =~= file);
    assert(0 <= open_len && open_len + file.len() <= s.len() && s.subrange(
        open_len,
        open_len + file.len(),
    ) == file);
}

/// Law: a store followed immediately by a load over the same resolution (the
/// same override value and the same existence of its path) writes and reads
/// at the same location; and when the reader hands back the very record the
/// writer was given, the load provisions that record's directories and
/// returns it unchanged, equal in all fields to the one stored.
pub proof fn lemma_store_then_load_round_trip(
    config: ConfigView,
    env_value: Option<Seq<char>>,
    override_exists: bool,
)
    requires
        env_value matches Some(file) ==> override_exists,
    ensures
        ({
            let written = store_transition(
                StoreStateView::Resolving { config },
                StoreEventView::Resolved { env_value, override_exists },
            );
            let resolved = load_transition(
                LoadStateView::Resolving,
                LoadEventView::Resolved { env_value, override_exists },
            );
            &&& written == (StoreStateView::Writing { target: env_value, config })
            &&& (env_value matches Some(file) ==> resolved == (LoadStateView::ReadingOverride {
                path: file,
            }))
            &&& (env_value is None ==> resolved == LoadStateView::ReadingDefault)
            &&& load_transition(
                load_transition(
                    load_transition(resolved, LoadEventView::Fetched { result: Ok(config) }),
                    LoadEventView::DbDirMade { error: None },
                ),
                LoadEventView::ThemesDirMade { error: None },
            ) == (LoadStateView::Ready { config })
        }),
{
}

/// Law: the canonical default configuration text names the default theme —
/// it begins with `theme = 'base16-ocean.dark'` — whatever the clipboard
/// command.
pub proof fn lemma_default_content_names_theme(copy_cmd: Seq<char>)
    ensures
        default_config_text(copy_cmd).len() >= 27,
        default_config_text(copy_cmd).subrange(0, 27) == "theme = 'base16-ocean.dark'"@,
        text_contains(default_config_text(copy_cmd), "theme = 'base16-ocean.dark'"@),
{
    reveal_strlit(
        "theme = 'base16-ocean.dark'\ndb_dir = 'the_way_db'\nthemes_dir = 'the_way_themes'\ncopy_cmd = '",
    );
    reveal_strlit("theme = 'base16-ocean.dark'");
    let content = default_config_text(copy_cmd);
    let theme = "theme = 'base16-ocean.dark'"@;
    assert(content.subrange(0, 27) =~= theme);
    assert(0 <= 0 && 0 + theme.len() <= content.len() && content.subrange(
        0,
        0 + theme.len() as int,
    ) == theme);
}

} // verus!
