//! What the pages in browser tabs report.

use crate::text::{concat3, same_text};
use vstd::prelude::*;

verus! {

/// The text of a report that comes from another tab than it names.
pub open spec fn rejected(caller: Seq<char>, expected: Seq<char>) -> Seq<char> {
    "Browser tab command rejected: caller '"@ + caller + "' does not match expected '"@ + expected
        + "'"@
}

/// Whether a report for the tab `expected_tab_id` comes from that tab: a page
/// cannot report for another tab.
pub fn validate_browser_tab_caller(caller_label: &str, expected_tab_id: &str) -> (r: Result<
    (),
    String,
>)
    ensures
        r is Ok <==> caller_label@ == expected_tab_id@,
        r matches Err(text) ==> text@ == rejected(caller_label@, expected_tab_id@),
{
    if same_text(caller_label, expected_tab_id) {
        Ok(())
    } else {
        let mut text = concat3(
            "Browser tab command rejected: caller '",
            caller_label,
            "' does not match expected '",
        );
        text.append(expected_tab_id);
        text.append("'");
        Err(text)
    }
}

/// What a page reports.
#[derive(Debug, Clone)]
pub enum TabReport {
    /// It has another address.
    Url(String),
    /// It is loaded.
    Loaded,
    /// It has another title.
    Title(String),
    /// The marker of this annotation was clicked.
    MarkerClicked(String),
}

/// An event for the window: its name, and its fields in order. `stale` says
/// that the annotations in the page are gone.
#[derive(Debug, Clone)]
pub struct TabEvent {
    pub name: String,
    pub fields: Vec<(String, String)>,
    pub stale: bool,
}

/// The name of the event for a report.
pub open spec fn event_name(report: TabReport) -> Seq<char> {
    match report {
        TabReport::Url(_) => "browser-tab-navigated"@,
        TabReport::Loaded => "browser-tab-loaded"@,
        TabReport::Title(_) => "browser-tab-title-changed"@,
        TabReport::MarkerClicked(_) => "browser-tab-annotation-marker-clicked"@,
    }
}

/// The fields of the event for a report of the tab `tab_id`.
pub open spec fn event_fields(tab_id: Seq<char>, report: TabReport) -> Seq<(Seq<char>, Seq<char>)> {
    let tab = ("browserTabId"@, tab_id);
    match report {
        TabReport::Url(url) => seq![tab, ("url"@, url@)],
        TabReport::Loaded => seq![tab],
        TabReport::Title(title) => seq![tab, ("title"@, title@)],
        TabReport::MarkerClicked(id) => seq![tab, ("annotationId"@, id@)],
    }
}

/// The event that a report becomes: `caller_label` is the tab that it comes
/// from, `tab_id` the one that it is about.
pub fn browser_tab_report(caller_label: &str, tab_id: &str, report: TabReport) -> (r: Result<
    TabEvent,
    String,
>)
    ensures
        r is Ok <==> caller_label@ == tab_id@,
        r matches Ok(event) ==> event.name@ == event_name(report) && event.fields.deep_view()
            == event_fields(tab_id@, report) && event.stale == (report is Url || report is Loaded),
        r matches Err(text) ==> text@ == rejected(caller_label@, tab_id@),
{
    if let Err(text) = validate_browser_tab_caller(caller_label, tab_id) {
        return Err(text);
    }
    let ghost fields_wanted = event_fields(tab_id@, report);
    let mut fields: Vec<(String, String)> = vec![("browserTabId".to_string(), tab_id.to_string())];
    let (name, stale) = match report {
        TabReport::Url(url) => {
            fields.push(("url".to_string(), url));
            ("browser-tab-navigated", true)
        },
        TabReport::Loaded => ("browser-tab-loaded", true),
        TabReport::Title(title) => {
            fields.push(("title".to_string(), title));
            ("browser-tab-title-changed", false)
        },
        TabReport::MarkerClicked(id) => {
            fields.push(("annotationId".to_string(), id));
            ("browser-tab-annotation-marker-clicked", false)
        },
    };
    assert(fields.deep_view() =~= fields_wanted);
    Ok(TabEvent { name: name.to_string(), fields, stale })
}

/// Whether a captured element is reported: from the tab that it names, and with
/// attributes that are an object.
pub fn check_captured_element(
    caller_label: &str,
    tab_id: &str,
    attributes_are_object: bool,
) -> (r: Result<(), String>)
    ensures
        r is Ok <==> caller_label@ == tab_id@ && attributes_are_object,
        r matches Err(text) ==> text@ == (if caller_label@ != tab_id@ {
            rejected(caller_label@, tab_id@)
        } else {
            "Browser tab report element captured rejected: attributes must be an object"@
        }),
{
    if let Err(text) = validate_browser_tab_caller(caller_label, tab_id) {
        return Err(text);
    }
    if attributes_are_object {
        Ok(())
    } else {
        Err(
            "Browser tab report element captured rejected: attributes must be an object".to_string(),
        )
    }
}

// ==================== Laws ====================

/// An event names the tab that it is about first, and then what the page
/// reported, as it is.
pub proof fn law_event_carries_the_report(tab_id: Seq<char>, report: TabReport)
    ensures
        event_fields(tab_id, report)[0] == ("browserTabId"@, tab_id),
        report matches TabReport::Url(url) ==> event_name(report) == "browser-tab-navigated"@
            && event_fields(tab_id, report).len() == 2 && event_fields(tab_id, report)[1] == (
            "url"@,
            url@,
        ),
        report is Loaded ==> event_name(report) == "browser-tab-loaded"@ && event_fields(
            tab_id,
            report,
        ).len() == 1,
        report matches TabReport::Title(title) ==> event_name(report)
            == "browser-tab-title-changed"@ && event_fields(tab_id, report).len() == 2
            && event_fields(tab_id, report)[1] == ("title"@, title@),
        report matches TabReport::MarkerClicked(id) ==> event_name(report)
            == "browser-tab-annotation-marker-clicked"@ && event_fields(tab_id, report).len() == 2
            && event_fields(tab_id, report)[1] == ("annotationId"@, id@),
{
}

/// A refusal names the tab that reported and the tab that it reported for.
pub proof fn law_refusal_names_both_tabs(caller: Seq<char>, expected: Seq<char>)
    ensures
        rejected(caller, expected) == "Browser tab command rejected: caller '"@ + caller
            + "' does not match expected '"@ + expected + "'"@,
{
}

} // verus!
