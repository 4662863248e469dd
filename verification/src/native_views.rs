//! The view catalogue of the native (no-webview) display: the webview
//! catalogue's views plus a test pattern, a UTC clock option and a touch
//! click delay for glassout panels.
use crate::views::{
    ViewDescriptor, ViewField, DescriptorModel, FieldModel, bool_field, descriptor, descriptor_models,
    field_bool, field_select, field_text, fit_options, hour_options, select_field, text_field,
};
use vstd::prelude::*;

verus! {

/// A free-text field.
pub fn text(key: &str, label: &str, default: &str) -> (r: ViewField)
    ensures
        r@ == text_field(key@, label@, default@),
{
    field_text(key, label, default)
}

/// An on/off field.
pub fn boolean(key: &str, label: &str, default: bool) -> (r: ViewField)
    ensures
        r@ == bool_field(key@, label@, default),
{
    field_bool(key, label, default)
}

/// A choice among `(value, label)` options.
pub fn select(key: &str, label: &str, opts: &[(&str, &str)], default: &str) -> (r: ViewField)
    ensures
        r@ == select_field(key@, label@, opts@.map_values(|p: (&str, &str)| (p.0@, p.1@)), default@),
{
    field_select(key, label, opts, default)
}

/// The catalogue of the native display: standby, clock (with UTC), test
/// pattern and glassout (with a click delay).
pub open spec fn spec_native_manifest() -> Seq<DescriptorModel> {
    seq![
        descriptor(
            "standby"@,
            "Standby"@,
            "Idle screen showing the device and screen name."@,
            seq![text_field("message"@, "Message"@, ""@)],
        ),
        descriptor(
            "clock"@,
            "Clock"@,
            "Large clock with optional seconds, date, and UTC/Zulu."@,
            seq![
                select_field("hourFormat"@, "Hour format"@, hour_options(), "24h"@),
                bool_field("showSeconds"@, "Show seconds"@, true),
                bool_field("showDate"@, "Show date"@, true),
                bool_field("utc"@, "UTC / Zulu time"@, false),
            ],
        ),
        descriptor(
            "testpattern"@,
            "Test pattern"@,
            "Alignment grid, edge frame, and colour bars for setting up panels."@,
            Seq::<FieldModel>::empty(),
        ),
        descriptor(
            "glassout"@,
            "Glassout panel"@,
            "Show a live MSFS panel from a glassout engine (rendered natively)."@,
            seq![
                text_field("engineUrl"@, "Engine URL"@, "http://127.0.0.1:8787"@),
                text_field("panelId"@, "Panel id"@, "PFD_Captain"@),
                select_field("fit"@, "Fit"@, fit_options(), "contain"@),
                text_field("targetFps"@, "Target FPS (10–120)"@, "30"@),
                text_field("clickDelay"@, "Click delay ms (blank = engine default)"@, ""@),
            ],
        ),
    ]
}

/// The full catalogue of views the native display supports.
pub fn view_manifest() -> (r: Vec<ViewDescriptor>)
    ensures
        descriptor_models(r@) == spec_native_manifest(),
{
    let mut standby_fields: Vec<ViewField> = Vec::new();
    standby_fields.push(text("message", "Message", ""));
    let standby = ViewDescriptor {
        id: "standby".to_owned(),
        name: "Standby".to_owned(),
        description: "Idle screen showing the device and screen name.".to_owned(),
        fields: standby_fields,
    };
    let mut clock_fields: Vec<ViewField> = Vec::new();
    let hours: [(&str, &str); 2] = [("24h", "24-hour"), ("12h", "12-hour")];
    clock_fields.push(select("hourFormat", "Hour format", &hours, "24h"));
    clock_fields.push(boolean("showSeconds", "Show seconds", true));
    clock_fields.push(boolean("showDate", "Show date", true));
    clock_fields.push(boolean("utc", "UTC / Zulu time", false));
    let clock = ViewDescriptor {
        id: "clock".to_owned(),
        name: "Clock".to_owned(),
        description: "Large clock with optional seconds, date, and UTC/Zulu.".to_owned(),
        fields: clock_fields,
    };
    let pattern = ViewDescriptor {
        id: "testpattern".to_owned(),
        name: "Test pattern".to_owned(),
        description: "Alignment grid, edge frame, and colour bars for setting up panels.".to_owned(),
        fields: Vec::new(),
    };
    let mut glassout_fields: Vec<ViewField> = Vec::new();
    let fits: [(&str, &str); 3] = [
        ("contain", "Contain (letterbox)"),
        ("stretch", "Stretch (fill)"),
        ("native", "Native (1:1)"),
    ];
    glassout_fields.push(text("engineUrl", "Engine URL", "http://127.0.0.1:8787"));
    glassout_fields.push(text("panelId", "Panel id", "PFD_Captain"));
    glassout_fields.push(select("fit", "Fit", &fits, "contain"));
    glassout_fields.push(text("targetFps", "Target FPS (10–120)", "30"));
    glassout_fields.push(text("clickDelay", "Click delay ms (blank = engine default)", ""));
    let glassout = ViewDescriptor {
        id: "glassout".to_owned(),
        name: "Glassout panel".to_owned(),
        description: "Show a live MSFS panel from a glassout engine (rendered natively).".to_owned(),
        fields: glassout_fields,
    };
    let mut r: Vec<ViewDescriptor> = Vec::new();
    r.push(standby);
    r.push(clock);
    r.push(pattern);
    r.push(glassout);
    proof {
        assert(hours@.map_values(|p: (&str, &str)| (p.0@, p.1@)) =~= hour_options());
        assert(fits@.map_values(|p: (&str, &str)| (p.0@, p.1@)) =~= fit_options());
        assert(r@[0]@.fields =~= spec_native_manifest()[0].fields);
        assert(r@[1]@.fields =~= spec_native_manifest()[1].fields);
        assert(r@[2]@.fields =~= spec_native_manifest()[2].fields);
        assert(r@[3]@.fields =~= spec_native_manifest()[3].fields);
        assert(descriptor_models(r@) =~= spec_native_manifest());
    }
    r
}

} // verus!
