//! Metrics scopes and the snapshot export, over the `tacho` registry.

use vstd::prelude::*;

verus! {

/// `tacho::Scope`: where metrics are created, under a prefix and labels.
#[verifier::external_type_specification]
#[verifier::external_body]
pub struct ExScope(tacho::Scope);

/// `tacho::Reporter`: where snapshots of a registry are taken.
#[verifier::external_type_specification]
#[verifier::external_body]
pub struct ExReporter(tacho::Reporter);

/// `tacho::Report`: one snapshot of a registry.
#[verifier::external_type_specification]
#[verifier::external_body]
pub struct ExReport(tacho::Report);

/// The prefix of a scope: the values appended to the root, oldest first.
pub uninterp spec fn scope_prefix(scope: tacho::Scope) -> Seq<Seq<char>>;

/// The labels of a scope: each key with its value.
pub uninterp spec fn scope_labels(scope: tacho::Scope) -> Map<Seq<char>, Seq<char>>;

/// The registry that a scope creates its metrics in.
pub uninterp spec fn registry_of_scope(scope: tacho::Scope) -> int;

/// The registry that a reporter takes its snapshots from.
pub uninterp spec fn registry_of_reporter(reporter: tacho::Reporter) -> int;

/// What `tacho::prometheus::write` renders a report as on a string: the
/// text that it appends, or nothing where it fails.
pub uninterp spec fn report_text(report: tacho::Report) -> Option<Seq<char>>;

/// The labels of a scope that has none.
pub open spec fn no_labels() -> Map<Seq<char>, Seq<char>> {
    Map::empty()
}

/// The prefix under which every metric of the process is named.
pub open spec fn root_prefix() -> Seq<Seq<char>> {
    seq!["l5d"@]
}

/// The label key under which a router's metrics carry its label.
pub open spec fn router_label_key() -> Seq<char> {
    "rt"@
}

/// The prefix of a router's balancer metrics, below the router's own.
pub open spec fn balancer_prefix() -> Seq<Seq<char>> {
    seq!["l5d"@, "balancer"@]
}

/// A scope is one of a router with this label: named under the root
/// prefix, and labelled with the router's label and nothing else.
pub open spec fn is_router_scope(scope: tacho::Scope, label: Seq<char>) -> bool {
    &&& scope_prefix(scope) == root_prefix()
    &&& scope_labels(scope) == no_labels().insert(
        router_label_key(),
        label,
    )
}

/// A scope is one of the balancer of a router with this label.
pub open spec fn is_balancer_scope(scope: tacho::Scope, label: Seq<char>) -> bool {
    &&& scope_prefix(scope) == balancer_prefix()
    &&& scope_labels(scope) == no_labels().insert(
        router_label_key(),
        label,
    )
}

/// A metrics registry by its two halves: the scope that metrics are created
/// in and the reporter that snapshots are taken from.
pub struct Registry {
    /// Where metrics are created.
    pub scope: tacho::Scope,
    /// Where snapshots are taken.
    pub reporter: tacho::Reporter,
}

/// Calls `tacho::new`. The scope it returns is the root: it has no prefix
/// and no labels. The scope and the reporter are made on one registry.
#[verifier::external_body]
fn new_registry() -> (r: Registry)
    ensures
        scope_prefix(r.scope) == Seq::<Seq<char>>::empty(),
        scope_labels(r.scope) == no_labels(),
        registry_of_scope(r.scope) == registry_of_reporter(r.reporter),
{
    let (scope, reporter) = tacho::new();
    Registry { scope, reporter }
}

/// Calls `Scope::clone`: the copy has the prefix, the labels and the
/// registry of the scope it was made from.
#[verifier::external_body]
fn same_scope(scope: &tacho::Scope) -> (r: tacho::Scope)
    ensures
        scope_prefix(r) == scope_prefix(*scope),
        scope_labels(r) == scope_labels(*scope),
        registry_of_scope(r) == registry_of_scope(*scope),
{
    scope.clone()
}

/// Calls `Scope::prefixed`: the value is appended to the prefix, and the
/// labels and the registry stay.
#[verifier::external_body]
fn prefixed(scope: tacho::Scope, value: &'static str) -> (r: tacho::Scope)
    ensures
        scope_prefix(r) == scope_prefix(scope).push(value@),
        scope_labels(r) == scope_labels(scope),
        registry_of_scope(r) == registry_of_scope(scope),
{
    scope.prefixed(value)
}

/// Calls `Scope::labeled` with a string for the value: the label is set,
/// replacing one of the same key, and the prefix and the registry stay.
#[verifier::external_body]
fn labeled(scope: tacho::Scope, key: &'static str, value: String) -> (r: tacho::Scope)
    ensures
        scope_prefix(r) == scope_prefix(scope),
        scope_labels(r) == scope_labels(scope).insert(key@, value@),
        registry_of_scope(r) == registry_of_scope(scope),
{
    scope.labeled(key, value)
}

/// Calls `Reporter::take`, which snapshots every metric, clears the
/// histograms and drops the metrics that nothing refers to any more. What
/// the report holds depends on what was recorded, so nothing is stated of
/// it; the reporter stays on its registry.
#[verifier::external_body]
fn take_report(reporter: &mut tacho::Reporter) -> (report: tacho::Report)
    ensures
        registry_of_reporter(*final(reporter)) == registry_of_reporter(*old(reporter)),
{
    reporter.take()
}

/// Calls `tacho::prometheus::write` on a string. Whether it succeeds, and
/// the text that it then has appended to the string, is a function of the
/// report, named [`report_text`].
#[verifier::external_body]
fn write_prometheus(out: &mut String, report: &tacho::Report) -> (ok: bool)
    ensures
        ok <==> report_text(*report) is Some,
        ok ==> final(out)@ == old(out)@ + report_text(*report)->0,
{
    tacho::prometheus::write(out, report).is_ok()
}

/// Calls `String::clear`: the string is empty afterwards.
#[verifier::external_body]
fn clear_text(text: &mut String)
    ensures
        final(text)@ == Seq::<char>::empty(),
{
    text.clear()
}

/// Creates the process-wide registry, its scope named under the root
/// prefix and its reporter on the same registry as the scope.
pub fn root_registry() -> (r: Registry)
    ensures
        scope_prefix(r.scope) == root_prefix(),
        scope_labels(r.scope) == no_labels(),
        registry_of_scope(r.scope) == registry_of_reporter(r.reporter),
{
    let registry = new_registry();
    let scope = prefixed(registry.scope, "l5d");
    proof {
        assert(scope_prefix(scope) =~= root_prefix());
    }
    Registry { scope, reporter: registry.reporter }
}

/// The scope of a router: the given scope, labelled with the router's label.
pub fn router_scope(root: &tacho::Scope, label: String) -> (r: tacho::Scope)
    ensures
        scope_prefix(r) == scope_prefix(*root),
        scope_labels(r) == scope_labels(*root).insert(router_label_key(), label@),
        registry_of_scope(r) == registry_of_scope(*root),
{
    labeled(same_scope(root), "rt", label)
}

/// The scope of a router's balancer: the router's scope, one prefix deeper.
pub fn balancer_scope(router: &tacho::Scope) -> (r: tacho::Scope)
    ensures
        scope_prefix(r) == scope_prefix(*router).push("balancer"@),
        scope_labels(r) == scope_labels(*router),
        registry_of_scope(r) == registry_of_scope(*router),
{
    prefixed(same_scope(router), "balancer")
}

/// The export could not render a report.
#[derive(Clone, Copy, Debug, PartialEq, Eq, Structural)]
pub struct RenderError;

/// A result and a text are what rendering a report into a buffer gives:
/// success exactly where the report can be rendered, and then the report's
/// text, alone, for the buffer's text.
pub open spec fn rendered(report: tacho::Report, r: Result<(), RenderError>, text: Seq<char>) -> bool {
    &&& r is Ok <==> report_text(report) is Some
    &&& r is Ok ==> text == report_text(report)->0
}

/// Replaces the text of the export buffer by the rendering of a report.
///
/// Succeeds exactly where the report can be rendered. On failure the buffer
/// holds whatever was rendered before the failure.
pub fn render_into(out: &mut String, report: &tacho::Report) -> (r: Result<(), RenderError>)
    ensures
        rendered(*report, r, final(out)@),
{
    clear_text(out);
    if write_prometheus(out, report) {
        proof {
            assert(Seq::<char>::empty() + report_text(*report)->0 =~= report_text(*report)->0);
        }
        Ok(())
    } else {
        Err(RenderError)
    }
}

/// Takes a snapshot of the registry, resetting it, and replaces the text of
/// the export buffer by the snapshot's rendering.
///
/// What comes back is what rendering the snapshot gives: success exactly
/// where it can be rendered, and then its text in the buffer.
pub fn export(reporter: &mut tacho::Reporter, out: &mut String) -> (r: Result<(), RenderError>)
    ensures
        exists|report: tacho::Report| rendered(report, r, final(out)@),
        registry_of_reporter(*final(reporter)) == registry_of_reporter(*old(reporter)),
{
    let report = take_report(reporter);
    let r = render_into(out, &report);
    assert(rendered(report, r, out@));
    r
}

} // verus!
