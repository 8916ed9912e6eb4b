//! What the two docked panels show: the sheet hierarchy on the left, the
//! selection's properties on the right.
//!
//! Both panels read one [`DesignState`], so picking a row on the left changes
//! what the right shows without either panel knowing about the other. What
//! it holds is placeholder data until a schematic is attached; the toolkit's
//! tree rows are built from its [`SheetNode`]s where the panel is drawn.

use vstd::prelude::*;
use crate::text::{chars_of, has_prefix_at, owned, starts_with};

verus! {

/// One row of the hierarchy tree and the rows under it.
#[derive(Debug)]
pub struct SheetNode {
    /// The row's id: `sheet-` for a sheet, `sym-` for a symbol.
    pub id: String,
    /// What the row shows.
    pub label: String,
    /// Whether its children are shown.
    pub expanded: bool,
    /// The rows under it.
    pub children: Vec<SheetNode>,
}

/// One row in the properties panel.
#[derive(Debug)]
pub struct Property {
    /// The field name.
    pub name: String,
    /// The field value, already formatted.
    pub value: String,
}

/// The content of a [`Property`]: its name and value.
pub open spec fn property_view(property: Property) -> (Seq<char>, Seq<char>) {
    (property.name@, property.value@)
}

/// The content of a list of properties.
pub open spec fn properties_view(properties: Seq<Property>) -> Seq<(Seq<char>, Seq<char>)> {
    properties.map_values(|property: Property| property_view(property))
}

/// The placeholder properties of a selection labelled `label`.
pub open spec fn placeholder_properties_of(label: Seq<char>) -> Seq<(Seq<char>, Seq<char>)> {
    seq![
        ("Name"@, label),
        ("Library"@, "kicad_sch_ui:placeholder"@),
        ("Position"@, "112.5, 68.0 mm"@),
        ("Rotation"@, "0\u{b0}"@),
        ("Unit"@, "1 of 1"@),
        ("Exclude from BOM"@, "No"@),
        ("Exclude from board"@, "No"@),
        ("Do not populate"@, "No"@),
    ]
}

/// What a selection with id `id` is, for the properties header: a symbol
/// when the id says so, a sheet otherwise.
pub open spec fn kind_of_selection(id: Seq<char>) -> Seq<char> {
    if starts_with(id, "sym-"@) {
        "Symbol"@
    } else {
        "Sheet"@
    }
}

/// A property row.
fn property(name: &str, value: &str) -> (p: Property)
    ensures
        property_view(p) == (name@, value@),
{
    Property { name: owned(name), value: owned(value) }
}

/// Push a property row.
fn push_property(properties: &mut Vec<Property>, name: &str, value: &str)
    ensures
        properties_view(final(properties)@) == properties_view(old(properties)@).push((name@, value@)),
{
    properties.push(property(name, value));
    assert(properties_view(final(properties)@) =~= properties_view(old(properties)@).push(
        (name@, value@),
    ));
}

/// The placeholder properties of a selection labelled `label`.
fn placeholder_properties(label: &str) -> (properties: Vec<Property>)
    ensures
        properties_view(properties@) == placeholder_properties_of(label@),
{
    let mut properties: Vec<Property> = Vec::new();
    push_property(&mut properties, "Name", label);
    push_property(&mut properties, "Library", "kicad_sch_ui:placeholder");
    push_property(&mut properties, "Position", "112.5, 68.0 mm");
    push_property(&mut properties, "Rotation", "0\u{b0}");
    push_property(&mut properties, "Unit", "1 of 1");
    push_property(&mut properties, "Exclude from BOM", "No");
    push_property(&mut properties, "Exclude from board", "No");
    push_property(&mut properties, "Do not populate", "No");
    assert(properties_view(properties@) =~= placeholder_properties_of(label@));
    properties
}

/// A row with no children.
fn leaf(id: &str, label: &str) -> (node: SheetNode)
    ensures
        node.id@ == id@,
        node.label@ == label@,
        !node.expanded,
        node.children@.len() == 0,
{
    SheetNode { id: owned(id), label: owned(label), expanded: false, children: Vec::new() }
}

/// The placeholder sheet tree: a root sheet holding three symbols and three
/// sub-sheets, the first of them expanded.
fn placeholder_hierarchy() -> (tree: Vec<SheetNode>)
    ensures
        tree@.len() == 1,
        tree@[0].id@ == "sheet-root"@,
        tree@[0].expanded,
        tree@[0].children@.len() == 6,
        tree@[0].children@[3].id@ == "sheet-power"@,
        tree@[0].children@[3].children@.len() == 3,
        tree@[0].children@[3].children@[0].id@ == "sym-u2"@,
{
    let mut power: Vec<SheetNode> = Vec::new();
    power.push(leaf("sym-u2", "U2  LDO-3V3"));
    power.push(leaf("sym-c2", "C2  10u"));
    power.push(leaf("sym-c3", "C3  10u"));
    let mut analog: Vec<SheetNode> = Vec::new();
    analog.push(leaf("sym-u3", "U3  OPA-DUAL"));
    analog.push(leaf("sym-r2", "R2  100k"));
    analog.push(leaf("sym-r3", "R3  100k"));
    let mut io: Vec<SheetNode> = Vec::new();
    io.push(leaf("sym-j1", "J1  USB-C"));
    io.push(leaf("sym-j2", "J2  HEADER-2x5"));
    let mut root: Vec<SheetNode> = Vec::new();
    root.push(leaf("sym-u1", "U1  MCU-48"));
    root.push(leaf("sym-r1", "R1  10k"));
    root.push(leaf("sym-c1", "C1  100n"));
    root.push(SheetNode { id: owned("sheet-power"), label: owned("Power"), expanded: true, children: power });
    root.push(
        SheetNode { id: owned("sheet-analog"), label: owned("Analog Front End"), expanded: false, children: analog },
    );
    root.push(SheetNode { id: owned("sheet-io"), label: owned("Connectors"), expanded: false, children: io });
    let mut tree: Vec<SheetNode> = Vec::new();
    tree.push(SheetNode { id: owned("sheet-root"), label: owned("Root Sheet"), expanded: true, children: root });
    tree
}

/// What the two panels display.
#[derive(Debug)]
pub struct DesignState {
    hierarchy: Vec<SheetNode>,
    selected_id: String,
    selected_label: String,
    selected_kind: String,
    properties: Vec<Property>,
}

impl DesignState {
    /// The id of the selected row.
    pub closed spec fn spec_selected_id(&self) -> Seq<char> {
        self.selected_id@
    }

    /// The label of the selected row.
    pub closed spec fn spec_selected_label(&self) -> Seq<char> {
        self.selected_label@
    }

    /// What kind of thing is selected.
    pub closed spec fn spec_selected_kind(&self) -> Seq<char> {
        self.selected_kind@
    }

    /// The properties of the selection.
    pub closed spec fn spec_properties(&self) -> Seq<(Seq<char>, Seq<char>)> {
        properties_view(self.properties@)
    }

    /// The sheet tree.
    pub closed spec fn spec_hierarchy(&self) -> Seq<SheetNode> {
        self.hierarchy@
    }

    /// The placeholder design shown until a real schematic is loaded: the
    /// root sheet selected.
    pub fn placeholder() -> (design: DesignState)
        ensures
            design.spec_selected_id() == "sheet-root"@,
            design.spec_selected_label() == "Root Sheet"@,
            design.spec_selected_kind() == "Sheet"@,
            design.spec_properties() == placeholder_properties_of("Root Sheet"@),
            design.spec_hierarchy().len() == 1,
            design.spec_hierarchy()[0].id@ == "sheet-root"@,
            design.spec_hierarchy()[0].expanded,
            design.spec_hierarchy()[0].children@.len() == 6,
            design.spec_hierarchy()[0].children@[3].children@[0].id@ == "sym-u2"@,
    {
        DesignState {
            hierarchy: placeholder_hierarchy(),
            selected_id: owned("sheet-root"),
            selected_label: owned("Root Sheet"),
            selected_kind: owned("Sheet"),
            properties: placeholder_properties("Root Sheet"),
        }
    }

    /// The sheet tree.
    pub fn hierarchy(&self) -> (tree: &Vec<SheetNode>)
        ensures
            tree@ == self.spec_hierarchy(),
    {
        &self.hierarchy
    }

    /// The id of the selected hierarchy row.
    pub fn selected_id(&self) -> (id: &str)
        ensures
            id@ == self.spec_selected_id(),
    {
        self.selected_id.as_str()
    }

    /// The label of the selected hierarchy row.
    pub fn selected_label(&self) -> (label: &str)
        ensures
            label@ == self.spec_selected_label(),
    {
        self.selected_label.as_str()
    }

    /// What kind of thing is selected, for the properties header.
    pub fn selected_kind(&self) -> (kind: &str)
        ensures
            kind@ == self.spec_selected_kind(),
    {
        self.selected_kind.as_str()
    }

    /// The properties of the selection.
    pub fn properties(&self) -> (properties: &Vec<Property>)
        ensures
            properties_view(properties@) == self.spec_properties(),
    {
        &self.properties
    }

    /// Select a hierarchy row, refreshing what follows from it: a `sym-` id
    /// is a symbol, anything else a sheet, and the properties are those of
    /// the new label. The tree itself is unchanged.
    pub fn select(&mut self, id: &str, label: &str)
        ensures
            final(self).spec_selected_id() == id@,
            final(self).spec_selected_label() == label@,
            final(self).spec_selected_kind() == kind_of_selection(id@),
            final(self).spec_properties() == placeholder_properties_of(label@),
            final(self).spec_hierarchy() == old(self).spec_hierarchy(),
    {
        let chars = chars_of(id);
        proof {
            assert(chars@.skip(0) =~= chars@);
        }
        let symbol = has_prefix_at(&chars, 0, "sym-");
        self.selected_id = owned(id);
        self.selected_label = owned(label);
        self.selected_kind = if symbol {
            owned("Symbol")
        } else {
            owned("Sheet")
        };
        self.properties = placeholder_properties(label);
    }
}

impl Default for DesignState {
    /// The placeholder design.
    fn default() -> (design: DesignState)
        ensures
            design.spec_selected_id() == "sheet-root"@,
            design.spec_selected_kind() == "Sheet"@,
    {
        DesignState::placeholder()
    }
}

} // verus!
