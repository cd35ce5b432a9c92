//! Typed policy values read from a loosely typed configuration tree.
//!
//! A boolean setting never fails: a missing key and a key of the wrong type
//! each fall back to a value that the caller names. The branch name is the
//! one setting without a fallback: a value of the wrong type is an error.
//! A key of the wrong type always raises one warning.

use vstd::prelude::*;
use crate::diagnostics::{Diagnostic, DiagnosticView, Diagnostics, ValueKind};
use crate::error::{HookError, HookErrorKind, HookErrorView};
use crate::hook::StoreAction;

verus! {

/// The configuration tree, a `toml::Value`. Nothing inside it is visible to
/// the verifier; what it holds is spoken of through [`config_entries`].
#[verifier::external_type_specification]
#[verifier::external_body]
pub struct ExValue(toml::Value);

/// What stands at a key of the tree, as far as the settings care.
#[derive(Debug, PartialEq, Eq)]
pub enum ConfigEntry {
    Boolean(bool),
    Text(String),
    /// A number, a date, an array or a table.
    Other,
}

/// The mathematical value of a [`ConfigEntry`].
pub enum EntryView {
    Boolean(bool),
    Text(Seq<char>),
    Other,
}

impl View for ConfigEntry {
    type V = EntryView;

    open spec fn view(&self) -> EntryView {
        match self {
            ConfigEntry::Boolean(b) => EntryView::Boolean(*b),
            ConfigEntry::Text(s) => EntryView::Text(s@),
            ConfigEntry::Other => EntryView::Other,
        }
    }
}

/// The contents of a tree: every dotted path at which `toml::Value::lookup`
/// finds a value, with what it finds there.
pub uninterp spec fn config_entries(tree: toml::Value) -> Map<Seq<char>, EntryView>;

/// Calls `toml::Value::lookup` and tells the variants of the value apart.
/// Trusted: the result is the entry of [`config_entries`] at `key`, and there
/// is none exactly when the path does not resolve.
#[verifier::external_body]
fn lookup(tree: &toml::Value, key: &str) -> (found: Option<ConfigEntry>)
    ensures
        found is Some <==> config_entries(*tree).dom().contains(key@),
        found matches Some(entry) ==> entry@ == config_entries(*tree)[key@],
{
    match tree.lookup(key) {
        None => None,
        Some(toml::Value::Boolean(b)) => Some(ConfigEntry::Boolean(*b)),
        Some(toml::Value::String(s)) => Some(ConfigEntry::Text(s.clone())),
        Some(_) => Some(ConfigEntry::Other),
    }
}

/// `Clone` of `toml::Value`, which the crate derives. Trusted: the copy
/// equals the tree it was made from.
pub assume_specification[ <toml::Value as Clone>::clone ](tree: &toml::Value) -> (copy: toml::Value)
    ensures
        copy == *tree,
;

/// The entries of a configuration that may not have been given: none at all
/// where there is no tree.
pub open spec fn entries_of(cfg: Option<&toml::Value>) -> Map<Seq<char>, EntryView> {
    match cfg {
        Some(tree) => config_entries(*tree),
        None => Map::empty(),
    }
}

/// What a lookup found, as the entry of a map.
pub open spec fn entry_at(entries: Map<Seq<char>, EntryView>, key: Seq<char>) -> Option<
    EntryView,
> {
    if entries.dom().contains(key) {
        Some(entries[key])
    } else {
        None
    }
}

/// The value of a boolean setting: the boolean that is there, `on_absent`
/// where nothing is there, `on_type_error` where something else is there.
pub open spec fn bool_value(found: Option<EntryView>, on_type_error: bool, on_absent: bool) -> bool {
    match found {
        None => on_absent,
        Some(EntryView::Boolean(b)) => b,
        Some(_) => on_type_error,
    }
}

/// Whether a value is present and is not of the expected type.
pub open spec fn is_mistyped(found: Option<EntryView>, expected: ValueKind) -> bool {
    match found {
        None => false,
        Some(EntryView::Boolean(_)) => expected != ValueKind::Boolean,
        Some(EntryView::Text(_)) => expected != ValueKind::Text,
        Some(EntryView::Other) => true,
    }
}

/// The warnings of one lookup: one for a mistyped value, none otherwise.
pub open spec fn type_warnings(found: Option<EntryView>, key: Seq<char>, expected: ValueKind) -> Seq<
    DiagnosticView,
> {
    if is_mistyped(found, expected) {
        seq![DiagnosticView::WrongType { key, expected }]
    } else {
        Seq::empty()
    }
}

/// The value of a text setting: the text that is there, nothing where
/// nothing is there, an error where something else is there.
pub open spec fn text_value(found: Option<EntryView>) -> Result<Option<Seq<char>>, HookErrorView> {
    match found {
        None => Ok(None),
        Some(EntryView::Text(s)) => Ok(Some(s)),
        Some(_) => Err(HookErrorView { kind: HookErrorKind::ConfigTypeError, cause: None }),
    }
}

/// The mathematical value of the result of a text lookup.
pub open spec fn text_result_view(r: Result<Option<String>, HookError>) -> Result<
    Option<Seq<char>>,
    HookErrorView,
> {
    match r {
        Ok(Some(s)) => Ok(Some(s@)),
        Ok(None) => Ok(None),
        Err(e) => Err(e@),
    }
}

/// The mathematical value of what a lookup found.
pub open spec fn found_view(found: Option<ConfigEntry>) -> Option<EntryView> {
    match found {
        Some(entry) => Some(entry@),
        None => None,
    }
}

/// Decides a boolean setting from what the lookup of `key` found, and warns
/// where the value has another type.
pub fn settle_bool(
    found: Option<ConfigEntry>,
    key: &str,
    on_type_error: bool,
    on_absent: bool,
    log: &mut Diagnostics,
) -> (value: bool)
    ensures
        value == bool_value(found_view(found), on_type_error, on_absent),
        final(log)@ == old(log)@ + type_warnings(found_view(found), key@, ValueKind::Boolean),
{
    match found {
        None => {
            assert(log@ =~= old(log)@ + Seq::<DiagnosticView>::empty());
            on_absent
        },
        Some(ConfigEntry::Boolean(b)) => {
            assert(log@ =~= old(log)@ + Seq::<DiagnosticView>::empty());
            b
        },
        Some(_) => {
            let warning = Diagnostic::WrongType {
                key: String::from_str(key),
                expected: ValueKind::Boolean,
            };
            log.warn(warning);
            assert(log@ =~= old(log)@ + seq![warning@]);
            on_type_error
        },
    }
}

/// Decides a text setting from what the lookup of `key` found. A value of
/// another type is an error and raises a warning.
pub fn settle_text(found: Option<ConfigEntry>, key: &str, log: &mut Diagnostics) -> (value: Result<
    Option<String>,
    HookError,
>)
    ensures
        text_result_view(value) == text_value(found_view(found)),
        final(log)@ == old(log)@ + type_warnings(found_view(found), key@, ValueKind::Text),
{
    match found {
        None => {
            assert(log@ =~= old(log)@ + Seq::<DiagnosticView>::empty());
            Ok(None)
        },
        Some(ConfigEntry::Text(s)) => {
            assert(log@ =~= old(log)@ + Seq::<DiagnosticView>::empty());
            Ok(Some(s))
        },
        Some(_) => {
            let warning = Diagnostic::WrongType {
                key: String::from_str(key),
                expected: ValueKind::Text,
            };
            log.warn(warning);
            assert(log@ =~= old(log)@ + seq![warning@]);
            Err(HookError::new(HookErrorKind::ConfigTypeError))
        },
    }
}

/// Reads the boolean at `key`. Never fails: `on_absent` stands in for a
/// missing key, `on_type_error` for a value that is no boolean, and the
/// latter raises exactly one warning.
pub fn resolve_bool(
    tree: &toml::Value,
    key: &str,
    on_type_error: bool,
    on_absent: bool,
    log: &mut Diagnostics,
) -> (value: bool)
    ensures
        value == bool_value(entry_at(config_entries(*tree), key@), on_type_error, on_absent),
        final(log)@ == old(log)@ + type_warnings(
            entry_at(config_entries(*tree), key@),
            key@,
            ValueKind::Boolean,
        ),
        !config_entries(*tree).dom().contains(key@) ==> value == on_absent && final(log)@ == old(
            log,
        )@,
        config_entries(*tree).dom().contains(key@) && !(config_entries(*tree)[key@] is Boolean)
            ==> value == on_type_error && final(log)@ == old(log)@.push(
            DiagnosticView::WrongType { key: key@, expected: ValueKind::Boolean },
        ),
{
    let found = lookup(tree, key);
    let value = settle_bool(found, key, on_type_error, on_absent, log);
    proof {
        let warnings = type_warnings(
            entry_at(config_entries(*tree), key@),
            key@,
            ValueKind::Boolean,
        );
        if warnings.len() == 0 {
            assert(old(log)@ + warnings =~= old(log)@);
        } else {
            assert(old(log)@ + warnings =~= old(log)@.push(warnings[0]));
        }
    }
    value
}

/// Reads the text at `key`: `Ok(None)` where the key is missing, and
/// a `ConfigTypeError` with one warning where the value is no text.
pub fn resolve_string(tree: &toml::Value, key: &str, log: &mut Diagnostics) -> (value: Result<
    Option<String>,
    HookError,
>)
    ensures
        text_result_view(value) == text_value(entry_at(config_entries(*tree), key@)),
        final(log)@ == old(log)@ + type_warnings(
            entry_at(config_entries(*tree), key@),
            key@,
            ValueKind::Text,
        ),
{
    let found = lookup(tree, key);
    settle_text(found, key, log)
}

/// [`resolve_bool`] on a configuration that may not have been given: without
/// a tree every key is missing.
pub fn get_bool_cfg(
    cfg: Option<&toml::Value>,
    name: &str,
    on_fail: bool,
    on_unavail: bool,
    log: &mut Diagnostics,
) -> (value: bool)
    ensures
        value == bool_value(entry_at(entries_of(cfg), name@), on_fail, on_unavail),
        final(log)@ == old(log)@ + type_warnings(
            entry_at(entries_of(cfg), name@),
            name@,
            ValueKind::Boolean,
        ),
{
    match cfg {
        Some(tree) => resolve_bool(tree, name, on_fail, on_unavail, log),
        None => {
            assert(log@ =~= old(log)@ + Seq::<DiagnosticView>::empty());
            on_unavail
        },
    }
}

/// The settings that the unload hook reads, each with its value over the
/// entries of the tree.
pub open spec fn enabled_in(entries: Map<Seq<char>, EntryView>) -> bool {
    bool_value(entry_at(entries, "enabled"@), false, false)
}

pub open spec fn abort_on_repo_init_failure_in(entries: Map<Seq<char>, EntryView>) -> bool {
    bool_value(entry_at(entries, "abort_on_repo_init_failure"@), true, true)
}

pub open spec fn try_checkout_in(entries: Map<Seq<char>, EntryView>) -> bool {
    bool_value(entry_at(entries, "try_checkout_ensure_branch"@), true, true)
}

pub open spec fn ensure_branch_in(entries: Map<Seq<char>, EntryView>) -> Result<
    Option<Seq<char>>,
    HookErrorView,
> {
    text_value(entry_at(entries, "ensure_branch"@))
}

pub open spec fn add_wt_changes_in(entries: Map<Seq<char>, EntryView>) -> bool {
    bool_value(entry_at(entries, "add_wt_changes_before_committing"@), false, false)
}

pub open spec fn committing_enabled_in(entries: Map<Seq<char>, EntryView>) -> bool {
    bool_value(entry_at(entries, "committing_is_enabled"@), false, false)
}

/// The warnings of reading the boolean setting `key`.
pub open spec fn bool_warnings(entries: Map<Seq<char>, EntryView>, key: Seq<char>) -> Seq<
    DiagnosticView,
> {
    type_warnings(entry_at(entries, key), key, ValueKind::Boolean)
}

/// The warnings of reading the text setting `key`.
pub open spec fn text_warnings(entries: Map<Seq<char>, EntryView>, key: Seq<char>) -> Seq<
    DiagnosticView,
> {
    type_warnings(entry_at(entries, key), key, ValueKind::Text)
}

/// `enabled`: whether the hook does anything. Off unless switched on.
pub fn is_enabled(cfg: Option<&toml::Value>, log: &mut Diagnostics) -> (value: bool)
    ensures
        value == enabled_in(entries_of(cfg)),
        final(log)@ == old(log)@ + bool_warnings(entries_of(cfg), "enabled"@),
{
    get_bool_cfg(cfg, "enabled", false, false, log)
}

/// `abort_on_repo_init_failure`: whether a missing repository is a failure.
/// It is, unless switched off.
pub fn abort_on_repo_init_err(cfg: Option<&toml::Value>, log: &mut Diagnostics) -> (value: bool)
    ensures
        value == abort_on_repo_init_failure_in(entries_of(cfg)),
        final(log)@ == old(log)@ + bool_warnings(entries_of(cfg), "abort_on_repo_init_failure"@),
{
    get_bool_cfg(cfg, "abort_on_repo_init_failure", true, true, log)
}

/// `try_checkout_ensure_branch`: whether the branch may be checked out where
/// another one is current. It may, unless switched off.
pub fn do_checkout_ensure_branch(cfg: Option<&toml::Value>, log: &mut Diagnostics) -> (value: bool)
    ensures
        value == try_checkout_in(entries_of(cfg)),
        final(log)@ == old(log)@ + bool_warnings(entries_of(cfg), "try_checkout_ensure_branch"@),
{
    get_bool_cfg(cfg, "try_checkout_ensure_branch", true, true, log)
}

/// `add_wt_changes_before_committing`: whether changes of the working tree
/// are staged. Off unless switched on.
pub fn add_wt_changes_before_committing(cfg: Option<&toml::Value>, log: &mut Diagnostics) -> (value:
    bool)
    ensures
        value == add_wt_changes_in(entries_of(cfg)),
        final(log)@ == old(log)@ + bool_warnings(
            entries_of(cfg),
            "add_wt_changes_before_committing"@,
        ),
{
    get_bool_cfg(cfg, "add_wt_changes_before_committing", false, false, log)
}

/// `committing_is_enabled`: whether a commit is made. Off unless switched on.
pub fn committing_is_enabled(cfg: Option<&toml::Value>, log: &mut Diagnostics) -> (value: bool)
    ensures
        value == committing_enabled_in(entries_of(cfg)),
        final(log)@ == old(log)@ + bool_warnings(entries_of(cfg), "committing_is_enabled"@),
{
    get_bool_cfg(cfg, "committing_is_enabled", false, false, log)
}

/// `ensure_branch`: the branch that must be checked out, if one is named.
/// A value that is no text is a `ConfigTypeError`.
pub fn ensure_branch(cfg: Option<&toml::Value>, log: &mut Diagnostics) -> (value: Result<
    Option<String>,
    HookError,
>)
    ensures
        text_result_view(value) == ensure_branch_in(entries_of(cfg)),
        final(log)@ == old(log)@ + text_warnings(entries_of(cfg), "ensure_branch"@),
{
    match cfg {
        Some(tree) => resolve_string(tree, "ensure_branch", log),
        None => {
            assert(log@ =~= old(log)@ + Seq::<DiagnosticView>::empty());
            Ok(None)
        },
    }
}

/// Whether the commit message is written by the user. Not supported: the
/// answer is always no, with a warning that says so.
pub fn commit_interactive(config: &toml::Value, log: &mut Diagnostics) -> (interactive: bool)
    ensures
        !interactive,
        final(log)@ == old(log)@.push(DiagnosticView::InteractiveCommitUnsupported),
{
    log.warn(Diagnostic::InteractiveCommitUnsupported);
    false
}

/// The message of the commit that a hook makes for `action`: the placeholder
/// `"Dummy commit"`.
pub fn commit_message(config: &toml::Value, action: StoreAction, log: &mut Diagnostics) -> (message:
    String)
    ensures
        message@ == "Dummy commit"@,
        final(log)@ == old(log)@.push(DiagnosticView::InteractiveCommitUnsupported),
{
    commit_interactive(config, log);
    String::from_str("Dummy commit")
}

} // verus!
