//! The catalogue of views a device can display, with the settings each
//! accepts. The admin app fetches it from a device and builds its forms
//! from it; the display renderers are keyed by the same ids.
use crate::json::{JsonModel, JsonValue};
use vstd::prelude::*;

verus! {

/// The view shown before anything is configured.
pub const DEFAULT_VIEW_ID: &'static str = "standby";

/// One choice of a `select` field.
#[derive(Debug, Clone)]
pub struct ViewOption {
    pub value: String,
    pub label: String,
}

/// A single configurable field of a view's settings.
#[derive(Debug, Clone)]
pub struct ViewField {
    pub key: String,
    pub label: String,
    /// One of `"text"`, `"boolean"`, `"select"`.
    pub kind: String,
    pub options: Vec<ViewOption>,
    pub default: JsonValue,
}

/// One view: its identity plus the settings it accepts.
#[derive(Debug, Clone)]
pub struct ViewDescriptor {
    pub id: String,
    pub name: String,
    pub description: String,
    pub fields: Vec<ViewField>,
}

pub struct OptionModel {
    pub value: Seq<char>,
    pub label: Seq<char>,
}

pub struct FieldModel {
    pub key: Seq<char>,
    pub label: Seq<char>,
    pub kind: Seq<char>,
    pub options: Seq<OptionModel>,
    pub default: JsonModel,
}

pub struct DescriptorModel {
    pub id: Seq<char>,
    pub name: Seq<char>,
    pub description: Seq<char>,
    pub fields: Seq<FieldModel>,
}

impl View for ViewOption {
    type V = OptionModel;

    open spec fn view(&self) -> OptionModel {
        OptionModel { value: self.value@, label: self.label@ }
    }
}

impl View for ViewField {
    type V = FieldModel;

    open spec fn view(&self) -> FieldModel {
        FieldModel {
            key: self.key@,
            label: self.label@,
            kind: self.kind@,
            options: self.options@.map_values(|o: ViewOption| o@),
            default: self.default@,
        }
    }
}

impl View for ViewDescriptor {
    type V = DescriptorModel;

    open spec fn view(&self) -> DescriptorModel {
        DescriptorModel {
            id: self.id@,
            name: self.name@,
            description: self.description@,
            fields: self.fields@.map_values(|f: ViewField| f@),
        }
    }
}

/// The models of a list of descriptors.
pub open spec fn descriptor_models(v: Seq<ViewDescriptor>) -> Seq<DescriptorModel> {
    v.map_values(|d: ViewDescriptor| d@)
}

/// A free-text field.
pub open spec fn text_field(key: Seq<char>, label: Seq<char>, default: Seq<char>) -> FieldModel {
    FieldModel {
        key,
        label,
        kind: "text"@,
        options: seq![],
        default: JsonModel::Text(default),
    }
}

/// An on/off field.
pub open spec fn bool_field(key: Seq<char>, label: Seq<char>, default: bool) -> FieldModel {
    FieldModel {
        key,
        label,
        kind: "boolean"@,
        options: seq![],
        default: JsonModel::Bool(default),
    }
}

/// A choice among `(value, label)` options.
pub open spec fn select_field(
    key: Seq<char>,
    label: Seq<char>,
    options: Seq<(Seq<char>, Seq<char>)>,
    default: Seq<char>,
) -> FieldModel {
    FieldModel {
        key,
        label,
        kind: "select"@,
        options: options.map_values(|p: (Seq<char>, Seq<char>)| OptionModel { value: p.0, label: p.1 }),
        default: JsonModel::Text(default),
    }
}

/// A view descriptor.
pub open spec fn descriptor(
    id: Seq<char>,
    name: Seq<char>,
    description: Seq<char>,
    fields: Seq<FieldModel>,
) -> DescriptorModel {
    DescriptorModel { id, name, description, fields }
}

/// The options of a fit field.
pub open spec fn fit_options() -> Seq<(Seq<char>, Seq<char>)> {
    seq![
        ("contain"@, "Contain (letterbox)"@),
        ("stretch"@, "Stretch (fill)"@),
        ("native"@, "Native (1:1)"@),
    ]
}

/// The options of an hour-format field.
pub open spec fn hour_options() -> Seq<(Seq<char>, Seq<char>)> {
    seq![("24h"@, "24-hour"@), ("12h"@, "12-hour"@)]
}

/// The catalogue of the webview display: standby, clock (with UTC), test
/// pattern and glassout (with a touch click delay).
pub open spec fn spec_view_manifest() -> Seq<DescriptorModel> {
    seq![
        descriptor(
            "standby"@,
            "Standby"@,
            "Idle screen showing the device and screen name."@,
            seq![text_field("message"@, "Message"@, ""@)],
        ),
        descriptor(
            "clock"@,
            "Clock"@,
            "Large clock with optional seconds, date, and UTC/Zulu."@,
            seq![
                select_field("hourFormat"@, "Hour format"@, hour_options(), "24h"@),
                bool_field("showSeconds"@, "Show seconds"@, true),
                bool_field("showDate"@, "Show date"@, true),
                bool_field("utc"@, "UTC / Zulu time"@, false),
            ],
        ),
        descriptor(
            "testpattern"@,
            "Test pattern"@,
            "Alignment grid, edge frame, and colour bars for setting up panels."@,
            Seq::<FieldModel>::empty(),
        ),
        descriptor(
            "glassout"@,
            "Glassout panel"@,
            "Show a live MSFS panel from a glassout engine."@,
            seq![
                text_field("engineUrl"@, "Engine URL"@, "http://127.0.0.1:8787"@),
                text_field("panelId"@, "Panel id"@, "PFD_Captain"@),
                select_field("fit"@, "Fit"@, fit_options(), "contain"@),
                text_field("targetFps"@, "Target FPS (10–120)"@, "30"@),
                text_field("clickDelay"@, "Click delay ms (blank = engine default)"@, ""@),
                bool_field("debug"@, "Latency overlay"@, false),
                text_field("path"@, "Advanced: viewer path"@, ""@),
            ],
        ),
    ]
}

/// A free-text field.
pub fn field_text(key: &str, label: &str, default: &str) -> (r: ViewField)
    ensures
        r@ == text_field(key@, label@, default@),
{
    let r = ViewField {
        key: key.to_owned(),
        label: label.to_owned(),
        kind: "text".to_owned(),
        options: Vec::new(),
        default: JsonValue::Text(default.to_owned()),
    };
    assert(r@.options =~= Seq::<OptionModel>::empty());
    r
}

/// An on/off field.
pub fn field_bool(key: &str, label: &str, default: bool) -> (r: ViewField)
    ensures
        r@ == bool_field(key@, label@, default),
{
    let r = ViewField {
        key: key.to_owned(),
        label: label.to_owned(),
        kind: "boolean".to_owned(),
        options: Vec::new(),
        default: JsonValue::Bool(default),
    };
    assert(r@.options =~= Seq::<OptionModel>::empty());
    r
}

/// A choice among `(value, label)` options.
pub fn field_select(key: &str, label: &str, options: &[(&str, &str)], default: &str) -> (r:
    ViewField)
    ensures
        r@ == select_field(
            key@,
            label@,
            options@.map_values(|p: (&str, &str)| (p.0@, p.1@)),
            default@,
        ),
{
    let mut opts: Vec<ViewOption> = Vec::new();
    let mut i: usize = 0;
    while i < options.len()
        invariant
            i <= options@.len(),
            opts@.len() == i,
            forall|j: int|
                0 <= j < i ==> (#[trigger] opts@[j])@ == (OptionModel {
                    value: options@[j].0@,
                    label: options@[j].1@,
                }),
        decreases options@.len() - i,
    {
        let (v, l) = options[i];
        opts.push(ViewOption { value: v.to_owned(), label: l.to_owned() });
        i = i + 1;
    }
    let r = ViewField {
        key: key.to_owned(),
        label: label.to_owned(),
        kind: "select".to_owned(),
        options: opts,
        default: JsonValue::Text(default.to_owned()),
    };
    assert(r@.options =~= options@.map_values(|p: (&str, &str)| (p.0@, p.1@)).map_values(
        |p: (Seq<char>, Seq<char>)| OptionModel { value: p.0, label: p.1 },
    ));
    r
}

/// The full catalogue of views the webview display supports.
pub fn view_manifest() -> (r: Vec<ViewDescriptor>)
    ensures
        descriptor_models(r@) == spec_view_manifest(),
{
    let mut standby_fields: Vec<ViewField> = Vec::new();
    standby_fields.push(field_text("message", "Message", ""));
    let standby = ViewDescriptor {
        id: "standby".to_owned(),
        name: "Standby".to_owned(),
        description: "Idle screen showing the device and screen name.".to_owned(),
        fields: standby_fields,
    };
    let mut clock_fields: Vec<ViewField> = Vec::new();
    let hours: [(&str, &str); 2] = [("24h", "24-hour"), ("12h", "12-hour")];
    clock_fields.push(field_select("hourFormat", "Hour format", &hours, "24h"));
    clock_fields.push(field_bool("showSeconds", "Show seconds", true));
    clock_fields.push(field_bool("showDate", "Show date", true));
    clock_fields.push(field_bool("utc", "UTC / Zulu time", false));
    let clock = ViewDescriptor {
        id: "clock".to_owned(),
        name: "Clock".to_owned(),
        description: "Large clock with optional seconds, date, and UTC/Zulu.".to_owned(),
        fields: clock_fields,
    };
    let pattern = ViewDescriptor {
        id: "testpattern".to_owned(),
        name: "Test pattern".to_owned(),
        description: "Alignment grid, edge frame, and colour bars for setting up panels.".to_owned(),
        fields: Vec::new(),
    };
    let mut glassout_fields: Vec<ViewField> = Vec::new();
    let fits: [(&str, &str); 3] = [
        ("contain", "Contain (letterbox)"),
        ("stretch", "Stretch (fill)"),
        ("native", "Native (1:1)"),
    ];
    glassout_fields.push(field_text("engineUrl", "Engine URL", "http://127.0.0.1:8787"));
    glassout_fields.push(field_text("panelId", "Panel id", "PFD_Captain"));
    glassout_fields.push(field_select("fit", "Fit", &fits, "contain"));
    glassout_fields.push(field_text("targetFps", "Target FPS (10–120)", "30"));
    glassout_fields.push(field_text("clickDelay", "Click delay ms (blank = engine default)", ""));
    glassout_fields.push(field_bool("debug", "Latency overlay", false));
    glassout_fields.push(field_text("path", "Advanced: viewer path", ""));
    let glassout = ViewDescriptor {
        id: "glassout".to_owned(),
        name: "Glassout panel".to_owned(),
        description: "Show a live MSFS panel from a glassout engine.".to_owned(),
        fields: glassout_fields,
    };
    let mut r: Vec<ViewDescriptor> = Vec::new();
    r.push(standby);
    r.push(clock);
    r.push(pattern);
    r.push(glassout);
    proof {
        assert(hours@.map_values(|p: (&str, &str)| (p.0@, p.1@)) =~= hour_options());
        assert(fits@.map_values(|p: (&str, &str)| (p.0@, p.1@)) =~= fit_options());
        assert(r@[0]@.fields =~= spec_view_manifest()[0].fields);
        assert(r@[1]@.fields =~= spec_view_manifest()[1].fields);
        assert(r@[2]@.fields =~= spec_view_manifest()[2].fields);
        assert(r@[3]@.fields =~= spec_view_manifest()[3].fields);
        assert(descriptor_models(r@) =~= spec_view_manifest());
    }
    r
}

} // verus!
