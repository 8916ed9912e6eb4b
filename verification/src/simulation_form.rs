//! The simulation and library-symbol workflow forms, built from the rows the
//! host supplies.
//!
//! The host describes a form as a list of labelled rows. Most rows are
//! fields; some only feed the form: `Choice N` rows list the options of field
//! `N`, `Device choice` and `Type choice` rows the options of a model's
//! device and type, `Available vector` rows the signals a plot can show,
//! `Sample` rows the plotted points, and a `Wheel actions` row how the plot
//! reacts to the mouse wheel. This module turns the rows into fields, each
//! with its control, and turns the controls back into the values the host is
//! handed.

use vstd::prelude::*;
use crate::hotkeys::{split_chars, split_on};
use crate::numbers::{decimal, lemma_decimal_reads_back, parse_u32, parse_usize, parsed_unsigned, to_decimal};
use crate::text::{chars_of, has_prefix_at, owned, starts_with, str_eq, string_from_chars};

verus! {

/// A row: its label and value.
pub type Row = (Seq<char>, Seq<char>);

/// The content of owned rows.
pub open spec fn rows_view(rows: Seq<(String, String)>) -> Seq<Row> {
    rows.map_values(|row: (String, String)| (row.0@, row.1@))
}

/// Whether `s` ends with `suffix`.
pub open spec fn ends_with(s: Seq<char>, suffix: Seq<char>) -> bool {
    suffix.len() <= s.len() && s.skip(s.len() - suffix.len()) == suffix
}

/// The field a `Choice N` row offers an option for, if the label is one.
pub open spec fn choice_target(label: Seq<char>) -> Option<int> {
    if starts_with(label, "Choice "@) {
        parsed_unsigned(label.skip(7), usize::MAX as int)
    } else {
        None
    }
}

/// Whether a row only feeds the form rather than being a field of it.
pub open spec fn is_auxiliary(label: Seq<char>) -> bool {
    starts_with(label, "Choice "@) || label == "Sample"@ || label == "Available vector"@ || label
        == "Wheel actions"@ || label == "Device choice"@ || label == "Type choice"@
}

/// The values of the rows labelled `label`, in order.
pub open spec fn values_labelled(rows: Seq<Row>, label: Seq<char>) -> Seq<Seq<char>>
    decreases rows.len(),
{
    if rows.len() == 0 {
        Seq::empty()
    } else {
        let before = values_labelled(rows.drop_last(), label);
        if rows.last().0 == label {
            before.push(rows.last().1)
        } else {
            before
        }
    }
}

/// The values of the `Choice N` rows for field `index`, in order.
pub open spec fn native_options(rows: Seq<Row>, index: int) -> Seq<Seq<char>>
    decreases rows.len(),
{
    if rows.len() == 0 {
        Seq::empty()
    } else {
        let before = native_options(rows.drop_last(), index);
        if choice_target(rows.last().0) == Some(index) {
            before.push(rows.last().1)
        } else {
            before
        }
    }
}

/// The rows that are fields, in order.
pub open spec fn fields_of(rows: Seq<Row>) -> Seq<Row>
    decreases rows.len(),
{
    if rows.len() == 0 {
        Seq::empty()
    } else {
        let before = fields_of(rows.drop_last());
        if is_auxiliary(rows.last().0) {
            before
        } else {
            before.push(rows.last())
        }
    }
}

/// The value of the first row labelled `label`.
pub open spec fn first_value(rows: Seq<Row>, label: Seq<char>) -> Option<Seq<char>>
    decreases rows.len(),
{
    if rows.len() == 0 {
        None
    } else {
        match first_value(rows.drop_last(), label) {
            Some(v) => Some(v),
            None => if rows.last().0 == label {
                Some(rows.last().1)
            } else {
                None
            },
        }
    }
}

/// The parts of `parts` that parse as `u32`s, parsed, in order.
pub open spec fn parsed_u32s(parts: Seq<Seq<char>>) -> Seq<u32>
    decreases parts.len(),
{
    if parts.len() == 0 {
        Seq::empty()
    } else {
        let before = parsed_u32s(parts.drop_last());
        match parsed_unsigned(parts.last(), u32::MAX as int) {
            Some(v) => before.push(v as u32),
            None => before,
        }
    }
}

/// How the plot reacts to the wheel: the comma-separated numbers of the
/// first `Wheel actions` row, those that parse.
pub open spec fn wheel_of(rows: Seq<Row>) -> Seq<u32> {
    match first_value(rows, "Wheel actions"@) {
        Some(text) => parsed_u32s(split_on(text, ',')),
        None => Seq::empty(),
    }
}

/// What the mouse wheel can do to the plot.
pub open spec fn wheel_names() -> Seq<Seq<char>> {
    seq![
        "None"@,
        "Pan left/right"@,
        "Pan right/left"@,
        "Pan up/down"@,
        "Zoom"@,
        "Zoom horizontally"@,
        "Zoom vertically"@,
    ]
}

/// The simulators a model can be written for.
pub open spec fn simulator_names() -> Seq<Seq<char>> {
    seq![
        "User configuration"@,
        "Ngspice"@,
        "PSpice"@,
        "LTspice"@,
        "LTspice and PSpice"@,
        "HSpice"@,
    ]
}

/// A pin's electrical types.
pub open spec fn pin_type_names() -> Seq<Seq<char>> {
    seq![
        "Input"@,
        "Output"@,
        "Bidirectional"@,
        "Tri-state"@,
        "Passive"@,
        "Free"@,
        "Unspecified"@,
        "Power input"@,
        "Power output"@,
        "Open collector"@,
        "Open emitter"@,
        "Unconnected"@,
    ]
}

/// A pin's orientations.
pub open spec fn orientation_names() -> Seq<Seq<char>> {
    seq!["Right"@, "Left"@, "Up"@, "Down"@]
}

/// The options field `index` of a form of `kind` offers, given all the rows
/// and the field's label: its own `Choice` rows when it has any; otherwise a
/// model's devices and types, the wheel actions, the plot's signals, the
/// simulators, a pin's electrical types or orientations, as the form and the
/// label say; otherwise none, and the field is typed into.
pub open spec fn field_options(kind: u32, rows: Seq<Row>, index: int, label: Seq<char>) -> Seq<Seq<char>> {
    let native = native_options(rows, index);
    if native.len() > 0 {
        native
    } else if kind == 0 && index == 1 {
        values_labelled(rows, "Device choice"@)
    } else if kind == 0 && index == 2 {
        values_labelled(rows, "Type choice"@)
    } else if kind == 15 {
        wheel_names()
    } else if kind == 17 && index == 0 {
        values_labelled(rows, "Available vector"@)
    } else if kind == 1 && index == 2 {
        simulator_names()
    } else if ends_with(label, "Electrical type"@) {
        pin_type_names()
    } else if ends_with(label, "Orientation"@) {
        orientation_names()
    } else {
        Seq::empty()
    }
}

/// Whether a field of `kind` at `index` holds an option's position rather
/// than the option itself.
pub open spec fn holds_position(kind: u32, index: int) -> bool {
    (kind == 1 && index == 2) || kind == 15
}

/// The option a choice field starts on: the one at the position its value
/// gives (the second when the value is not a number, none past the end) for
/// a field holding a position, the value itself otherwise.
pub open spec fn initial_choice(kind: u32, index: int, value: Seq<char>, options: Seq<Seq<char>>) -> Seq<char> {
    if holds_position(kind, index) {
        let k = match parsed_unsigned(value, usize::MAX as int) {
            Some(k) => k,
            None => 1,
        };
        if 0 <= k < options.len() {
            options[k]
        } else {
            Seq::empty()
        }
    } else {
        value
    }
}

/// The check box a value stands for, if it is one.
pub open spec fn boolean_of(value: Seq<char>) -> Option<bool> {
    if value == "true"@ {
        Some(true)
    } else if value == "false"@ {
        Some(false)
    } else {
        None
    }
}

/// Whether a field with `label` hides what is typed.
pub open spec fn is_secret(label: Seq<char>) -> bool {
    label == "Password"@ || label == "Access token"@ || label == "Connection string"@
}

/// The content of a form field: label, value, check box, options, the
/// option it starts on, and whether it hides what is typed.
pub struct FieldView {
    /// The label.
    pub label: Seq<char>,
    /// The value the host supplied.
    pub value: Seq<char>,
    /// The check box the value stands for.
    pub boolean: Option<bool>,
    /// The options offered; none for a typed field.
    pub options: Seq<Seq<char>>,
    /// The option it starts on, for a choice field.
    pub selected: Option<Seq<char>>,
    /// Whether it hides what is typed.
    pub masked: bool,
}

/// Field `index` of a form of `kind` built from `rows`.
pub open spec fn field_at(kind: u32, rows: Seq<Row>, index: int) -> FieldView {
    let field = fields_of(rows)[index];
    let options = field_options(kind, rows, index, field.0);
    FieldView {
        label: field.0,
        value: field.1,
        boolean: boolean_of(field.1),
        options,
        selected: if options.len() == 0 {
            None
        } else {
            Some(initial_choice(kind, index, field.1, options))
        },
        masked: is_secret(field.0),
    }
}

/// A form's fields.
pub open spec fn form_fields(kind: u32, rows: Seq<Row>) -> Seq<FieldView> {
    Seq::new(fields_of(rows).len(), |index: int| field_at(kind, rows, index))
}

/// The option flags a form carries in its second field's value, zero when
/// there is none or it is not a number.
pub open spec fn flags_of(rows: Seq<Row>) -> u32 {
    let fields = fields_of(rows);
    if fields.len() > 1 {
        match parsed_unsigned(fields[1].1, u32::MAX as int) {
            Some(v) => v as u32,
            None => 0,
        }
    } else {
        0
    }
}

/// One field of a form.
#[derive(Debug)]
pub struct SimulationField {
    /// The label.
    pub label: String,
    /// The value the host supplied.
    pub value: String,
    /// The check box the value stands for.
    pub boolean: Option<bool>,
    /// The options offered; none for a typed field.
    pub options: Vec<String>,
    /// The option it starts on, for a choice field.
    pub selected: Option<String>,
    /// Whether it hides what is typed.
    pub masked: bool,
}

/// A workflow form.
#[derive(Debug)]
pub struct SimulationForm {
    /// Which workflow.
    pub kind: u32,
    /// Its fields, in order.
    pub fields: Vec<SimulationField>,
    /// The option flags its second field carries.
    pub flags: u32,
    /// How its plot reacts to the wheel.
    pub wheel: Vec<u32>,
    /// The values of its `Sample` rows, each three comma-separated numbers
    /// of a plotted point.
    pub samples: Vec<String>,
}

/// The names of owned strings.
pub open spec fn strings_view(strings: Seq<String>) -> Seq<Seq<char>> {
    strings.map_values(|s: String| s@)
}

/// The content of one field.
pub open spec fn field_view(field: SimulationField) -> FieldView {
    FieldView {
        label: field.label@,
        value: field.value@,
        boolean: field.boolean,
        options: strings_view(field.options@),
        selected: match field.selected {
            Some(s) => Some(s@),
            None => None,
        },
        masked: field.masked,
    }
}

/// Whether `form` is the form of `kind` the rows `rows` describe.
pub open spec fn describes(form: SimulationForm, kind: u32, rows: Seq<Row>) -> bool {
    &&& form.kind == kind
    &&& form.fields@.map_values(|f: SimulationField| field_view(f)) == form_fields(kind, rows)
    &&& form.flags == flags_of(rows)
    &&& form.wheel@ == wheel_of(rows)
    &&& strings_view(form.samples@) == values_labelled(rows, "Sample"@)
}

/// Whether `s` ends with `suffix`.
fn ends_with_str(s: &str, suffix: &str) -> (found: bool)
    ensures
        found == ends_with(s@, suffix@),
{
    let chars = chars_of(s);
    let n = suffix.unicode_len();
    if n > chars.len() {
        return false;
    }
    let found = has_prefix_at(&chars, chars.len() - n, suffix);
    assert(chars@.skip(chars@.len() - n).len() == n);
    proof {
        if found {
            assert(chars@.skip(chars@.len() - n).subrange(0, n as int) =~= chars@.skip(chars@.len() - n));
        } else {
            assert(chars@.skip(chars@.len() - n).subrange(0, n as int) =~= chars@.skip(chars@.len() - n));
        }
    }
    found
}

/// The field a `Choice N` label offers an option for.
fn choice_target_of(label: &str) -> (target: Option<usize>)
    ensures
        match target {
            Some(i) => choice_target(label@) == Some(i as int),
            None => choice_target(label@) is None,
        },
{
    let chars = chars_of(label);
    assert(chars@.skip(0) =~= chars@);
    if !has_prefix_at(&chars, 0, "Choice ") {
        return None;
    }
    proof {
        reveal_strlit("Choice ");
    }
    let mut rest: Vec<char> = Vec::new();
    let mut i: usize = 7;
    while i < chars.len()
        invariant
            7 <= i <= chars@.len(),
            rest@ == chars@.subrange(7, i as int),
        decreases chars@.len() - i,
    {
        rest.push(chars[i]);
        assert(chars@.subrange(7, i + 1) =~= chars@.subrange(7, i as int).push(chars@[i as int]));
        i = i + 1;
    }
    assert(chars@.subrange(7, chars@.len() as int) =~= label@.skip(7));
    let text = string_from_chars(&rest);
    parse_usize(text.as_str())
}

/// Whether a label marks a row that only feeds the form.
fn auxiliary(label: &str) -> (aux: bool)
    ensures
        aux == is_auxiliary(label@),
{
    let chars = chars_of(label);
    assert(chars@.skip(0) =~= chars@);
    has_prefix_at(&chars, 0, "Choice ") || str_eq(label, "Sample") || str_eq(label, "Available vector")
        || str_eq(label, "Wheel actions") || str_eq(label, "Device choice") || str_eq(label, "Type choice")
}

/// The values of the rows labelled `label`.
fn labelled(rows: &Vec<(String, String)>, label: &str) -> (values: Vec<String>)
    ensures
        strings_view(values@) == values_labelled(rows_view(rows@), label@),
{
    let ghost all = rows_view(rows@);
    let mut values: Vec<String> = Vec::new();
    let mut i: usize = 0;
    assert(all.take(0) =~= Seq::<Row>::empty());
    assert(strings_view(values@) =~= Seq::<Seq<char>>::empty());
    while i < rows.len()
        invariant
            i <= rows@.len(),
            all == rows_view(rows@),
            strings_view(values@) == values_labelled(all.take(i as int), label@),
        decreases rows@.len() - i,
    {
        assert(all.take(i + 1).drop_last() =~= all.take(i as int));
        assert(all.take(i + 1).last() == all[i as int]);
        assert(all[i as int] == (rows@[i as int].0@, rows@[i as int].1@));
        if str_eq(rows[i].0.as_str(), label) {
            let ghost before = strings_view(values@);
            values.push(rows[i].1.clone());
            assert(strings_view(values@) =~= before.push(rows@[i as int].1@));
        }
        i = i + 1;
    }
    assert(all.take(rows@.len() as int) =~= all);
    values
}

/// The values of the `Choice N` rows for field `index`.
fn native_choices(rows: &Vec<(String, String)>, index: usize) -> (values: Vec<String>)
    ensures
        strings_view(values@) == native_options(rows_view(rows@), index as int),
{
    let ghost all = rows_view(rows@);
    let mut values: Vec<String> = Vec::new();
    let mut i: usize = 0;
    assert(all.take(0) =~= Seq::<Row>::empty());
    assert(strings_view(values@) =~= Seq::<Seq<char>>::empty());
    while i < rows.len()
        invariant
            i <= rows@.len(),
            all == rows_view(rows@),
            strings_view(values@) == native_options(all.take(i as int), index as int),
        decreases rows@.len() - i,
    {
        assert(all.take(i + 1).drop_last() =~= all.take(i as int));
        assert(all.take(i + 1).last() == all[i as int]);
        assert(all[i as int] == (rows@[i as int].0@, rows@[i as int].1@));
        let target = choice_target_of(rows[i].0.as_str());
        let hit = match target {
            Some(t) => t == index,
            None => false,
        };
        if hit {
            let ghost before = strings_view(values@);
            values.push(rows[i].1.clone());
            assert(strings_view(values@) =~= before.push(rows@[i as int].1@));
        }
        i = i + 1;
    }
    assert(all.take(rows@.len() as int) =~= all);
    values
}

/// Owned copies of fixed names.
fn owned_names(names: &Vec<&'static str>) -> (owned_list: Vec<String>)
    ensures
        strings_view(owned_list@) == names@.map_values(|n: &'static str| n@),
{
    let mut list: Vec<String> = Vec::new();
    let mut i: usize = 0;
    while i < names.len()
        invariant
            i <= names@.len(),
            strings_view(list@) == names@.take(i as int).map_values(|n: &'static str| n@),
        decreases names@.len() - i,
    {
        let ghost before = strings_view(list@);
        list.push(owned(names[i]));
        assert(strings_view(list@) =~= before.push(names@[i as int]@));
        assert(names@.take(i + 1).map_values(|n: &'static str| n@) =~= names@.take(i as int).map_values(
            |n: &'static str| n@,
        ).push(names@[i as int]@));
        i = i + 1;
    }
    assert(names@.take(names@.len() as int) =~= names@);
    list
}

/// The wheel actions, as owned strings.
fn wheel_options() -> (list: Vec<String>)
    ensures
        strings_view(list@) == wheel_names(),
{
    let names = vec![
        "None",
        "Pan left/right",
        "Pan right/left",
        "Pan up/down",
        "Zoom",
        "Zoom horizontally",
        "Zoom vertically",
    ];
    let list = owned_names(&names);
    assert(strings_view(list@) =~= wheel_names());
    list
}

/// The simulators, as owned strings.
fn simulator_options() -> (list: Vec<String>)
    ensures
        strings_view(list@) == simulator_names(),
{
    let names = vec!["User configuration", "Ngspice", "PSpice", "LTspice", "LTspice and PSpice", "HSpice"];
    let list = owned_names(&names);
    assert(strings_view(list@) =~= simulator_names());
    list
}

/// The electrical types, as owned strings.
fn pin_type_options() -> (list: Vec<String>)
    ensures
        strings_view(list@) == pin_type_names(),
{
    let names = vec![
        "Input",
        "Output",
        "Bidirectional",
        "Tri-state",
        "Passive",
        "Free",
        "Unspecified",
        "Power input",
        "Power output",
        "Open collector",
        "Open emitter",
        "Unconnected",
    ];
    let list = owned_names(&names);
    assert(strings_view(list@) =~= pin_type_names());
    list
}

/// The orientations, as owned strings.
fn orientation_options() -> (list: Vec<String>)
    ensures
        strings_view(list@) == orientation_names(),
{
    let names = vec!["Right", "Left", "Up", "Down"];
    let list = owned_names(&names);
    assert(strings_view(list@) =~= orientation_names());
    list
}

/// The options of field `index`, labelled `label`, of a form of `kind`.
fn options_for(kind: u32, rows: &Vec<(String, String)>, index: usize, label: &str) -> (options: Vec<String>)
    ensures
        strings_view(options@) == field_options(kind, rows_view(rows@), index as int, label@),
{
    let native = native_choices(rows, index);
    if native.len() > 0 {
        native
    } else if kind == 0 && index == 1 {
        labelled(rows, "Device choice")
    } else if kind == 0 && index == 2 {
        labelled(rows, "Type choice")
    } else if kind == 15 {
        wheel_options()
    } else if kind == 17 && index == 0 {
        labelled(rows, "Available vector")
    } else if kind == 1 && index == 2 {
        simulator_options()
    } else if ends_with_str(label, "Electrical type") {
        pin_type_options()
    } else if ends_with_str(label, "Orientation") {
        orientation_options()
    } else {
        Vec::new()
    }
}

/// The option a choice field starts on.
fn starting_choice(kind: u32, index: usize, value: &str, options: &Vec<String>) -> (choice: String)
    ensures
        choice@ == initial_choice(kind, index as int, value@, strings_view(options@)),
{
    if (kind == 1 && index == 2) || kind == 15 {
        let k: usize = match parse_usize(value) {
            Some(k) => k,
            None => 1,
        };
        if k < options.len() {
            options[k].clone()
        } else {
            String::new()
        }
    } else {
        owned(value)
    }
}

/// The wheel actions a `Wheel actions` value lists: its comma-separated
/// parts that parse.
fn wheel_actions(text: &str) -> (actions: Vec<u32>)
    ensures
        actions@ == parsed_u32s(split_on(text@, ',')),
{
    let chars = chars_of(text);
    let parts = split_chars(&chars, ',');
    let ghost pieces = parts@.map_values(|p: Vec<char>| p@);
    let mut actions: Vec<u32> = Vec::new();
    let mut i: usize = 0;
    assert(pieces.take(0) =~= Seq::<Seq<char>>::empty());
    while i < parts.len()
        invariant
            i <= parts@.len(),
            pieces == parts@.map_values(|p: Vec<char>| p@),
            actions@ == parsed_u32s(pieces.take(i as int)),
        decreases parts@.len() - i,
    {
        assert(pieces.take(i + 1).drop_last() =~= pieces.take(i as int));
        assert(pieces.take(i + 1).last() == parts@[i as int]@);
        let part = string_from_chars(&parts[i]);
        match parse_u32(part.as_str()) {
            Some(v) => {
                actions.push(v);
            },
            None => {},
        }
        i = i + 1;
    }
    assert(pieces.take(parts@.len() as int) =~= pieces);
    actions
}

/// `fields_of` keeps its input's rows, in order: the `k`-th field is some
/// row at or after position `k`.
proof fn lemma_fields_prefix(rows: Seq<Row>, n: int)
    requires
        0 <= n < rows.len(),
    ensures
        fields_of(rows.take(n + 1)) == if is_auxiliary(rows[n].0) {
            fields_of(rows.take(n))
        } else {
            fields_of(rows.take(n)).push(rows[n])
        },
{
    assert(rows.take(n + 1).drop_last() =~= rows.take(n));
    assert(rows.take(n + 1).last() == rows[n]);
}

/// Build the form of `kind` the host's `rows` describe.
pub fn simulation_form(kind: u32, rows: &Vec<(String, String)>) -> (form: SimulationForm)
    ensures
        describes(form, kind, rows_view(rows@)),
{
    let ghost all = rows_view(rows@);
    // Which rows are fields.
    let mut field_rows: Vec<(String, String)> = Vec::new();
    let mut wheel_text: Option<String> = None;
    let mut i: usize = 0;
    assert(all.take(0) =~= Seq::<Row>::empty());
    assert(rows_view(field_rows@) =~= Seq::<Row>::empty());
    while i < rows.len()
        invariant
            i <= rows@.len(),
            all == rows_view(rows@),
            rows_view(field_rows@) == fields_of(all.take(i as int)),
            match wheel_text {
                Some(t) => first_value(all.take(i as int), "Wheel actions"@) == Some(t@),
                None => first_value(all.take(i as int), "Wheel actions"@) is None,
            },
        decreases rows@.len() - i,
    {
        proof {
            lemma_fields_prefix(all, i as int);
        }
        assert(all.take(i + 1).drop_last() =~= all.take(i as int));
        assert(all.take(i + 1).last() == all[i as int]);
        assert(all[i as int] == (rows@[i as int].0@, rows@[i as int].1@));
        let label = rows[i].0.as_str();
        if wheel_text.is_none() && str_eq(label, "Wheel actions") {
            wheel_text = Some(rows[i].1.clone());
        }
        if !auxiliary(label) {
            let ghost before = rows_view(field_rows@);
            field_rows.push((rows[i].0.clone(), rows[i].1.clone()));
            assert(rows_view(field_rows@) =~= before.push(all[i as int]));
        }
        i = i + 1;
    }
    assert(all.take(rows@.len() as int) =~= all);
    let ghost fields = fields_of(all);
    // Each field's control.
    let mut built: Vec<SimulationField> = Vec::new();
    let mut k: usize = 0;
    while k < field_rows.len()
        invariant
            k <= field_rows@.len(),
            all == rows_view(rows@),
            fields == fields_of(all),
            rows_view(field_rows@) == fields,
            built@.len() == k,
            forall|j: int| 0 <= j < k ==> #[trigger] field_view(built@[j]) == field_at(kind, all, j),
        decreases field_rows@.len() - k,
    {
        assert(fields[k as int] == (field_rows@[k as int].0@, field_rows@[k as int].1@));
        let label = field_rows[k].0.as_str();
        let value = field_rows[k].1.as_str();
        let options = options_for(kind, rows, k, label);
        let selected = if options.len() == 0 {
            None
        } else {
            Some(starting_choice(kind, k, value, &options))
        };
        let boolean = if str_eq(value, "true") {
            Some(true)
        } else if str_eq(value, "false") {
            Some(false)
        } else {
            None
        };
        let masked = str_eq(label, "Password") || str_eq(label, "Access token") || str_eq(
            label,
            "Connection string",
        );
        let field = SimulationField {
            label: owned(label),
            value: owned(value),
            boolean,
            options,
            selected,
            masked,
        };
        assert(field_view(field) == field_at(kind, all, k as int));
        let ghost before = built@;
        built.push(field);
        assert forall|j: int| 0 <= j < k + 1 implies #[trigger] field_view(built@[j]) == field_at(kind, all, j) by {
            if j < k {
                assert(built@[j] == before[j]);
            }
        }
        k = k + 1;
    }
    assert(built@.map_values(|f: SimulationField| field_view(f)) =~= form_fields(kind, all));
    let flags = if field_rows.len() > 1 {
        assert(fields[1] == (field_rows@[1].0@, field_rows@[1].1@));
        match parse_u32(field_rows[1].1.as_str()) {
            Some(v) => v,
            None => 0,
        }
    } else {
        0
    };
    let wheel = match &wheel_text {
        Some(text) => wheel_actions(text.as_str()),
        None => Vec::new(),
    };
    let samples = labelled(rows, "Sample");
    SimulationForm { kind, fields: built, flags, wheel, samples }
}

/// The position of `value` among `names`, if it is there.
pub open spec fn position_in(names: Seq<Seq<char>>, value: Seq<char>) -> Option<int> {
    if exists|i: int| 0 <= i < names.len() && names[i] == value {
        Some(choose|i: int| 0 <= i < names.len() && names[i] == value && forall|j: int| 0 <= j < i ==> names[j] != value)
    } else {
        None
    }
}

/// The value the host is handed for field `index` of a form of `kind`: the
/// option flags for the simulator model's flags field; `true` or `false`
/// for a check box; for a choice with an option picked, the option's
/// position (the first when it is not listed, or the second for the
/// simulator) where the field holds a position, the option otherwise; and
/// what was typed for anything else.
pub open spec fn field_value(
    kind: u32,
    index: int,
    flags: u32,
    boolean: Option<bool>,
    picked: Option<Seq<char>>,
    typed: Seq<char>,
) -> Seq<char> {
    if kind == 1 && index == 1 {
        decimal(flags as nat)
    } else if boolean is Some {
        if boolean->0 {
            "true"@
        } else {
            "false"@
        }
    } else if picked is Some {
        if kind == 15 {
            decimal(
                match position_in(wheel_names(), picked->0) {
                    Some(p) => p as nat,
                    None => 0,
                },
            )
        } else if kind == 1 && index == 2 {
            decimal(
                match position_in(simulator_names(), picked->0) {
                    Some(p) => p as nat,
                    None => 1,
                },
            )
        } else {
            picked->0
        }
    } else {
        typed
    }
}

/// The first position of `value` among owned `names`.
fn find_position(names: &Vec<String>, value: &str) -> (found: Option<usize>)
    ensures
        match found {
            Some(i) => position_in(strings_view(names@), value@) == Some(i as int),
            None => position_in(strings_view(names@), value@) is None,
        },
{
    let ghost view = strings_view(names@);
    let mut i: usize = 0;
    while i < names.len()
        invariant
            i <= names@.len(),
            view == strings_view(names@),
            forall|j: int| 0 <= j < i ==> view[j] != value@,
        decreases names@.len() - i,
    {
        assert(view[i as int] == names@[i as int]@);
        if str_eq(names[i].as_str(), value) {
            proof {
                let c = choose|c: int| 0 <= c < view.len() && view[c] == value@ && forall|j: int| 0 <= j < c ==> view[j] != value@;
                if c < i {
                } else if c > i {
                    assert(view[i as int] == value@);
                }
            }
            return Some(i);
        }
        i = i + 1;
    }
    None
}

/// The value the host is handed for field `index` of a form of `kind`,
/// given its check box, the option picked, and what was typed.
pub fn value_for(
    kind: u32,
    index: usize,
    flags: u32,
    boolean: Option<bool>,
    picked: Option<&str>,
    typed: &str,
) -> (value: String)
    ensures
        value@ == field_value(
            kind,
            index as int,
            flags,
            boolean,
            match picked {
                Some(p) => Some(p@),
                None => None,
            },
            typed@,
        ),
{
    if kind == 1 && index == 1 {
        return to_decimal(flags as u64);
    }
    match boolean {
        Some(b) => {
            return if b {
                owned("true")
            } else {
                owned("false")
            };
        },
        None => {},
    }
    match picked {
        Some(p) => {
            if kind == 15 {
                let names = wheel_options();
                let position: usize = match find_position(&names, p) {
                    Some(i) => i,
                    None => 0,
                };
                to_decimal(position as u64)
            } else if kind == 1 && index == 2 {
                let names = simulator_options();
                let position: usize = match find_position(&names, p) {
                    Some(i) => i,
                    None => 1,
                };
                to_decimal(position as u64)
            } else {
                owned(p)
            }
        },
        None => owned(typed),
    }
}

// ---------------------------------------------------------------------------
// Pin maps

/// The pigeonhole principle: `n + 1` positions sent into `n` slots share a
/// slot.
proof fn lemma_pigeonhole(f: spec_fn(int) -> int, n: int)
    requires
        n >= 0,
        forall|i: int| 0 <= i <= n ==> 0 <= #[trigger] f(i) < n,
    ensures
        exists|i: int, j: int| 0 <= i < j <= n && #[trigger] f(i) == #[trigger] f(j),
    decreases n,
{
    if n == 0 {
        let v = f(0);
        assert(0 <= v && v < n);
    } else if exists|i: int| 0 <= i < n && #[trigger] f(i) == f(n) {
        let i = choose|i: int| 0 <= i < n && #[trigger] f(i) == f(n);
        assert(f(i) == f(n));
    } else {
        let g = |i: int| if f(i) == n - 1 { f(n) } else { f(i) };
        assert forall|i: int| 0 <= i <= n - 1 implies 0 <= #[trigger] g(i) < n - 1 by {
            assert(f(i) != f(n));
        }
        lemma_pigeonhole(g, n - 1);
        let (i, j) = choose|i: int, j: int| 0 <= i < j <= n - 1 && #[trigger] g(i) == #[trigger] g(j);
        assert(f(i) != f(n) && f(j) != f(n));
        assert(f(i) == f(j));
    }
}

/// The value a pin map's name row holds for map `n`.
pub open spec fn map_name(n: nat) -> Seq<char> {
    "Map "@ + decimal(n)
}

/// Whether some row names map `n`.
pub open spec fn map_used(rows: Seq<Row>, n: nat) -> bool {
    exists|r: int| 0 <= r < rows.len() && rows[r].0 == "Map name"@ && #[trigger] rows[r].1 == map_name(n)
}

/// Distinct maps have distinct names.
proof fn lemma_map_names_differ(a: nat, b: nat)
    requires
        a != b,
    ensures
        map_name(a) != map_name(b),
{
    lemma_decimal_reads_back(a);
    lemma_decimal_reads_back(b);
    reveal_strlit("Map ");
    if map_name(a) == map_name(b) {
        assert(map_name(a).skip(4) =~= decimal(a));
        assert(map_name(b).skip(4) =~= decimal(b));
    }
}

/// Not every map from the first to the one after the number of rows can be
/// named already: the rows would have to name more maps than there are rows.
proof fn lemma_some_map_free(rows: Seq<Row>)
    ensures
        exists|n: nat| 1 <= n <= rows.len() + 1 && !map_used(rows, n),
{
    if forall|n: nat| 1 <= n <= rows.len() + 1 ==> map_used(rows, n) {
        let len = rows.len() as int;
        let f = |i: int| choose|r: int| 0 <= r < rows.len() && rows[r].0 == "Map name"@ && #[trigger] rows[r].1 == map_name((i + 1) as nat);
        assert forall|i: int| 0 <= i <= len implies 0 <= #[trigger] f(i) < len by {
            assert(map_used(rows, (i + 1) as nat));
        }
        lemma_pigeonhole(f, len);
        let (i, j) = choose|i: int, j: int| 0 <= i < j <= len && #[trigger] f(i) == #[trigger] f(j);
        assert(map_used(rows, (i + 1) as nat));
        assert(map_used(rows, (j + 1) as nat));
        lemma_map_names_differ((i + 1) as nat, (j + 1) as nat);
    }
}

/// How many pins a pin map lists: the number in the third row's value, none
/// when there is no third row or it is not a number.
pub open spec fn pin_count_of(rows: Seq<Row>) -> int {
    if rows.len() > 2 {
        match parsed_unsigned(rows[2].1, usize::MAX as int) {
            Some(n) => n,
            None => 0,
        }
    } else {
        0
    }
}

/// The rows of a new, empty pin map numbered `n` over `count` pins whose
/// names the rows from the fourth on hold.
pub open spec fn fresh_map(rows: Seq<Row>, count: int, n: nat) -> Seq<Row> {
    seq![("Map name"@, map_name(n)), ("Associated footprints (; separated)"@, Seq::empty())]
        + Seq::new(count as nat, |p: int| ("Pin "@ + rows[3 + p].1 + " \u{2192} pad"@, rows[3 + p].1))
}

/// The rows of a copy, numbered `n`, of the pin map starting at row `index`
/// over `count` pins: its rows with the new name and no footprints.
pub open spec fn copied_map(rows: Seq<Row>, index: int, count: int, n: nat) -> Seq<Row> {
    let map = rows.subrange(index, index + 2 + count);
    map.update(0, (map[0].0, map_name(n))).update(1, (map[1].0, Seq::empty()))
}

/// How many pins the pin map rows list.
pub fn pin_map_count(rows: &Vec<(String, String)>) -> (count: usize)
    ensures
        count == pin_count_of(rows_view(rows@)),
{
    if rows.len() > 2 {
        match parse_usize(rows[2].1.as_str()) {
            Some(n) => n,
            None => 0,
        }
    } else {
        0
    }
}

/// The number of the next new pin map: the first from one up that no row
/// names.
pub fn next_map_number(rows: &Vec<(String, String)>) -> (number: usize)
    requires
        rows@.len() < usize::MAX,
    ensures
        1 <= number <= rows@.len() + 1,
        !map_used(rows_view(rows@), number as nat),
        forall|m: nat| 1 <= m < number ==> map_used(rows_view(rows@), m),
{
    let ghost all = rows_view(rows@);
    proof {
        lemma_some_map_free(all);
    }
    let mut number: usize = 1;
    loop
        invariant
            all == rows_view(rows@),
            rows@.len() < usize::MAX,
            1 <= number <= rows@.len() + 1,
            forall|m: nat| 1 <= m < number ==> map_used(all, m),
            exists|n: nat| 1 <= n <= rows@.len() + 1 && !map_used(all, n),
        decreases rows@.len() + 1 - number,
    {
        let name = map_label(number);
        let mut used = false;
        let mut r: usize = 0;
        while r < rows.len()
            invariant
                all == rows_view(rows@),
                r <= rows@.len(),
                name@ == map_name(number as nat),
                used == exists|q: int| 0 <= q < r && all[q].0 == "Map name"@ && #[trigger] all[q].1 == map_name(number as nat),
            decreases rows@.len() - r,
        {
            assert(all[r as int] == (rows@[r as int].0@, rows@[r as int].1@));
            let same_label = str_eq(rows[r].0.as_str(), "Map name");
            let same_value = str_eq(rows[r].1.as_str(), name.as_str());
            assert(same_label == (all[r as int].0 == "Map name"@));
            assert(same_value == (all[r as int].1 == map_name(number as nat)));
            if same_label && same_value {
                used = true;
            }
            r = r + 1;
        }
        if !used {
            return number;
        }
        assert(map_used(all, number as nat));
        proof {
            if number == rows@.len() + 1 {
                let n = choose|n: nat| 1 <= n <= rows@.len() + 1 && !map_used(all, n);
                assert(n < number || n == number);
            }
        }
        number = number + 1;
    }
}

/// The name row value of map `n`.
fn map_label(n: usize) -> (label: String)
    ensures
        label@ == map_name(n as nat),
{
    let mut label = owned("Map ");
    let digits = to_decimal(n as u64);
    label.append(digits.as_str());
    label
}

/// Add a pin map after the existing rows: a copy of the map starting at row
/// `copy`, or a new, empty map over the listed pins; either way numbered
/// with the first number no map has and with no footprints.
pub fn add_pin_map(rows: &Vec<(String, String)>, copy: Option<usize>) -> (result: Vec<(String, String)>)
    requires
        rows@.len() < usize::MAX,
        match copy {
            Some(index) => index + 2 + pin_count_of(rows_view(rows@)) <= rows@.len(),
            None => 3 + pin_count_of(rows_view(rows@)) <= rows@.len(),
        },
    ensures
        ({
            let before = rows_view(rows@);
            let count = pin_count_of(before);
            exists|n: nat|
                #![trigger map_used(before, n)]
                1 <= n && !map_used(before, n) && (forall|m: nat| 1 <= m < n ==> map_used(before, m))
                    && rows_view(result@) == before + match copy {
                    Some(index) => copied_map(before, index as int, count, n),
                    None => fresh_map(before, count, n),
                }
        }),
{
    let ghost before = rows_view(rows@);
    let count = pin_map_count(rows);
    let number = next_map_number(rows);
    let mut result: Vec<(String, String)> = Vec::new();
    let mut i: usize = 0;
    while i < rows.len()
        invariant
            i <= rows@.len(),
            before == rows_view(rows@),
            rows_view(result@) == before.take(i as int),
        decreases rows@.len() - i,
    {
        let ghost prev = rows_view(result@);
        result.push((rows[i].0.clone(), rows[i].1.clone()));
        assert(before[i as int] == (rows@[i as int].0@, rows@[i as int].1@));
        assert(rows_view(result@) =~= prev.push(before[i as int]));
        assert(before.take(i + 1) =~= before.take(i as int).push(before[i as int]));
        i = i + 1;
    }
    assert(before.take(rows@.len() as int) =~= before);
    let ghost map = match copy {
        Some(index) => copied_map(before, index as int, count as int, number as nat),
        None => fresh_map(before, count as int, number as nat),
    };
    let mut added: usize = 0;
    match copy {
        Some(index) => {
            let end = index + 2 + count;
            let mut k: usize = index;
            while k < end
                invariant
                    index <= k <= end,
                    end == index + 2 + count,
                    end <= rows@.len(),
                    before == rows_view(rows@),
                    map == copied_map(before, index as int, count as int, number as nat),
                    rows_view(result@) == before + map.take(k - index),
                decreases end - k,
            {
                let value = if k == index {
                    map_label(number)
                } else if k == index + 1 {
                    String::new()
                } else {
                    rows[k].1.clone()
                };
                let ghost prev = rows_view(result@);
                let label = rows[k].0.clone();
                assert(map[k - index] == (label@, value@));
                result.push((label, value));
                assert(rows_view(result@) =~= prev.push((label@, value@)));
                assert(map.take(k + 1 - index) =~= map.take(k - index).push(map[k - index]));
                k = k + 1;
            }
            assert(map.take(end - index) =~= map);
        },
        None => {
            result.push((owned("Map name"), map_label(number)));
            result.push((owned("Associated footprints (; separated)"), String::new()));
            assert(rows_view(result@) =~= before + map.take(2));
            assert(3 + count <= rows@.len());
            let mut p: usize = 0;
            while p < count
                invariant
                    p <= count,
                    3 + count <= rows@.len(),
                    rows@.len() < usize::MAX,
                    before == rows_view(rows@),
                    map == fresh_map(before, count as int, number as nat),
                    rows_view(result@) == before + map.take(2 + p),
                decreases count - p,
            {
                let pin = &rows[3 + p].1;
                let mut label = owned("Pin ");
                label.append(pin.as_str());
                label.append(" \u{2192} pad");
                let ghost prev = rows_view(result@);
                let value = pin.clone();
                assert(map[2 + p] == (label@, value@));
                result.push((label, value));
                assert(rows_view(result@) =~= prev.push(map[2 + p]));
                assert(map.take(2 + p + 1) =~= map.take(2 + p).push(map[2 + p]));
                p = p + 1;
            }
            assert(map.take(2 + count) =~= map);
        },
    }
    assert(!map_used(before, number as nat));
    result
}

/// Remove `count` rows starting at row `start`, as deleting a pin map does.
pub fn remove_rows(rows: &Vec<(String, String)>, start: usize, count: usize) -> (result: Vec<(String, String)>)
    requires
        start + count <= rows@.len(),
    ensures
        rows_view(result@) == rows_view(rows@).subrange(0, start as int) + rows_view(rows@).subrange(
            start + count,
            rows@.len() as int,
        ),
{
    let ghost all = rows_view(rows@);
    let ghost kept = all.subrange(0, start as int) + all.subrange(start + count, rows@.len() as int);
    let mut result: Vec<(String, String)> = Vec::new();
    let mut i: usize = 0;
    while i < rows.len()
        invariant
            i <= rows@.len(),
            start + count <= rows@.len(),
            all == rows_view(rows@),
            kept == all.subrange(0, start as int) + all.subrange(start + count, rows@.len() as int),
            rows_view(result@) == if i <= start {
                all.subrange(0, i as int)
            } else if i <= start + count {
                all.subrange(0, start as int)
            } else {
                all.subrange(0, start as int) + all.subrange(start + count, i as int)
            },
        decreases rows@.len() - i,
    {
        if i < start || i >= start + count {
            let ghost before = rows_view(result@);
            result.push((rows[i].0.clone(), rows[i].1.clone()));
            assert(rows_view(result@) =~= before.push(all[i as int]));
        }
        proof {
            if i + 1 <= start {
                assert(all.subrange(0, i + 1) =~= all.subrange(0, i as int).push(all[i as int]));
            } else if i + 1 > start + count {
                if i == start + count {
                    assert(all.subrange(start + count, i + 1) =~= seq![all[i as int]]);
                    assert(all.subrange(0, start as int) + all.subrange(start + count, i as int) =~= all.subrange(0, start as int));
                } else {
                    assert(all.subrange(start + count, i + 1) =~= all.subrange(start + count, i as int).push(all[i as int]));
                }
            }
        }
        i = i + 1;
    }
    assert(rows_view(result@) =~= kept);
    result
}

} // verus!
