//! The shell-owned commands and the names they report to the host.
//!
//! Most commands in the catalogue only exist to be handed to KiCad by their
//! `TOOL_ACTION` name. [`ShellCommand`] covers the ones the shell answers
//! itself; each still reports a name, so the host hears about everything. Pure
//! chrome — panels, themes, the frame readout — reports under a `kicad.ui.`
//! name, so the host can tell the two populations apart and ignore ours.

use vstd::prelude::*;

verus! {

broadcast use vstd::string::group_string_axioms;

/// The shell-owned commands, as one enum so tables can name them.
#[derive(Clone, Copy, Debug, PartialEq, Eq, Hash, Structural)]
pub enum ShellCommand {
    /// Resolve custom field name case conflicts.
    FieldCaseConflicts,
    /// Manage schematic data source packages.
    SchematicDataSources,
    /// Migrate legacy bus labels.
    MigrateBuses,
    /// Edit bus aliases.
    BusAliases,
    /// Edit net classes.
    Netclasses,
    /// Edit net chains.
    NetChains,
    /// Import schematic settings.
    ImportSettings,
    /// Configure remote symbol providers.
    RemoteSymbolSettings,
    /// Close the editor.
    Quit,
    /// Zoom in one step.
    ZoomIn,
    /// Zoom out one step.
    ZoomOut,
    /// Frame the whole sheet.
    ZoomToFit,
    /// Frame the drawn items.
    ZoomToObjects,
    /// Return to 1:1.
    ZoomActualSize,
    /// Show or hide the grid.
    ToggleGrid,
    /// Step to the next grid spacing.
    CycleGrid,
    /// Move to the next display unit.
    ToggleUnits,
    /// Swap the dark and light themes.
    ToggleTheme,
    /// Show or hide the hierarchy dock.
    ToggleLeftPanel,
    /// Show or hide the properties dock.
    ToggleRightPanel,
    /// Show or hide the frame-time readout.
    ToggleFrameStats,
    /// Open the command palette.
    OpenCommandPalette,
    /// Abandon the active tool.
    CancelTool,
}

/// The KiCad action name reported to the host when `command` runs.
pub open spec fn shell_command_name(command: ShellCommand) -> &'static str {
    match command {
        ShellCommand::FieldCaseConflicts => "gpui.FieldCaseConflicts",
        ShellCommand::SchematicDataSources => "gpui.SchematicDataSources",
        ShellCommand::MigrateBuses => "gpui.MigrateBuses",
        ShellCommand::BusAliases => "gpui.Setup.buses",
        ShellCommand::Netclasses => "gpui.Setup.netclasses",
        ShellCommand::NetChains => "gpui.Setup.netchains",
        ShellCommand::ImportSettings => "gpui.Setup.import",
        ShellCommand::RemoteSymbolSettings => "gpui.RemoteSymbols.settings",
        ShellCommand::Quit => "common.Control.quit",
        ShellCommand::ZoomIn => "common.Control.zoomIn",
        ShellCommand::ZoomOut => "common.Control.zoomOut",
        ShellCommand::ZoomToFit => "common.Control.zoomFitScreen",
        ShellCommand::ZoomToObjects => "common.Control.zoomFitObjects",
        ShellCommand::ZoomActualSize => "common.Control.zoomPreset",
        ShellCommand::ToggleGrid => "common.Control.toggleGrid",
        ShellCommand::CycleGrid => "common.Control.gridNext",
        ShellCommand::ToggleUnits => "common.Control.toggleUnits",
        ShellCommand::ToggleTheme => "kicad.ui.toggleTheme",
        ShellCommand::ToggleLeftPanel => "kicad.ui.toggleLeftPanel",
        ShellCommand::ToggleRightPanel => "kicad.ui.toggleRightPanel",
        ShellCommand::ToggleFrameStats => "kicad.ui.toggleFrameStats",
        ShellCommand::OpenCommandPalette => "kicad.ui.openCommandPalette",
        ShellCommand::CancelTool => "common.Interactive.cancel",
    }
}

/// Whether `command` is pure chrome: something only the shell's own window
/// cares about, with no KiCad counterpart.
pub open spec fn is_chrome(command: ShellCommand) -> bool {
    match command {
        ShellCommand::ToggleTheme
        | ShellCommand::ToggleLeftPanel
        | ShellCommand::ToggleRightPanel
        | ShellCommand::ToggleFrameStats
        | ShellCommand::OpenCommandPalette => true,
        _ => false,
    }
}

/// Whether `command` is dispatched as a named KiCad action, the same way a
/// host command is, rather than as an action type of the shell's own: the
/// setup and migration workflows are.
pub open spec fn dispatched_by_name(command: ShellCommand) -> bool {
    match command {
        ShellCommand::FieldCaseConflicts
        | ShellCommand::SchematicDataSources
        | ShellCommand::MigrateBuses
        | ShellCommand::BusAliases
        | ShellCommand::Netclasses
        | ShellCommand::NetChains
        | ShellCommand::ImportSettings
        | ShellCommand::RemoteSymbolSettings => true,
        _ => false,
    }
}

impl ShellCommand {
    /// Whether this command is dispatched as a named action carrying its
    /// reported name, rather than as a typed action of its own.
    pub fn is_dispatched_by_name(self) -> (named: bool)
        ensures
            named == dispatched_by_name(self),
    {
        match self {
            ShellCommand::FieldCaseConflicts
            | ShellCommand::SchematicDataSources
            | ShellCommand::MigrateBuses
            | ShellCommand::BusAliases
            | ShellCommand::Netclasses
            | ShellCommand::NetChains
            | ShellCommand::ImportSettings
            | ShellCommand::RemoteSymbolSettings => true,
            _ => false,
        }
    }

    /// The KiCad action name reported to the host when this command runs, for
    /// the commands that have a KiCad counterpart, and a `kicad.ui.` name for
    /// pure chrome.
    pub fn reported_id(self) -> (name: &'static str)
        ensures
            name == shell_command_name(self),
    {
        match self {
            ShellCommand::FieldCaseConflicts => "gpui.FieldCaseConflicts",
            ShellCommand::SchematicDataSources => "gpui.SchematicDataSources",
            ShellCommand::MigrateBuses => "gpui.MigrateBuses",
            ShellCommand::BusAliases => "gpui.Setup.buses",
            ShellCommand::Netclasses => "gpui.Setup.netclasses",
            ShellCommand::NetChains => "gpui.Setup.netchains",
            ShellCommand::ImportSettings => "gpui.Setup.import",
            ShellCommand::RemoteSymbolSettings => "gpui.RemoteSymbols.settings",
            ShellCommand::Quit => "common.Control.quit",
            ShellCommand::ZoomIn => "common.Control.zoomIn",
            ShellCommand::ZoomOut => "common.Control.zoomOut",
            ShellCommand::ZoomToFit => "common.Control.zoomFitScreen",
            ShellCommand::ZoomToObjects => "common.Control.zoomFitObjects",
            ShellCommand::ZoomActualSize => "common.Control.zoomPreset",
            ShellCommand::ToggleGrid => "common.Control.toggleGrid",
            ShellCommand::CycleGrid => "common.Control.gridNext",
            ShellCommand::ToggleUnits => "common.Control.toggleUnits",
            ShellCommand::ToggleTheme => "kicad.ui.toggleTheme",
            ShellCommand::ToggleLeftPanel => "kicad.ui.toggleLeftPanel",
            ShellCommand::ToggleRightPanel => "kicad.ui.toggleRightPanel",
            ShellCommand::ToggleFrameStats => "kicad.ui.toggleFrameStats",
            ShellCommand::OpenCommandPalette => "kicad.ui.openCommandPalette",
            ShellCommand::CancelTool => "common.Interactive.cancel",
        }
    }
}

/// No two shell commands report the same name, so the host can always tell
/// which one ran.
#[verifier::rlimit(100)]
pub proof fn lemma_shell_command_names_distinct(a: ShellCommand, b: ShellCommand)
    requires
        a != b,
    ensures
        shell_command_name(a)@ != shell_command_name(b)@,
{
    assert(shell_command_name(a)@ != shell_command_name(b)@) by {
        reveal_strlit("gpui.FieldCaseConflicts");
        assert("gpui.FieldCaseConflicts"@.len() == 23);
        reveal_strlit("gpui.SchematicDataSources");
        assert("gpui.SchematicDataSources"@.len() == 25);
        reveal_strlit("gpui.MigrateBuses");
        assert("gpui.MigrateBuses"@.len() == 17);
        reveal_strlit("gpui.Setup.buses");
        assert("gpui.Setup.buses"@.len() == 16);
        reveal_strlit("gpui.Setup.netclasses");
        assert("gpui.Setup.netclasses"@.len() == 21);
        reveal_strlit("gpui.Setup.netchains");
        assert("gpui.Setup.netchains"@.len() == 20);
        reveal_strlit("gpui.Setup.import");
        assert("gpui.Setup.import"@.len() == 17);
        reveal_strlit("gpui.RemoteSymbols.settings");
        assert("gpui.RemoteSymbols.settings"@.len() == 27);
        reveal_strlit("common.Control.quit");
        assert("common.Control.quit"@.len() == 19);
        reveal_strlit("common.Control.zoomIn");
        assert("common.Control.zoomIn"@.len() == 21);
        reveal_strlit("common.Control.zoomOut");
        assert("common.Control.zoomOut"@.len() == 22);
        reveal_strlit("common.Control.zoomFitScreen");
        assert("common.Control.zoomFitScreen"@.len() == 28);
        reveal_strlit("common.Control.zoomFitObjects");
        assert("common.Control.zoomFitObjects"@.len() == 29);
        reveal_strlit("common.Control.zoomPreset");
        assert("common.Control.zoomPreset"@.len() == 25);
        reveal_strlit("common.Control.toggleGrid");
        assert("common.Control.toggleGrid"@.len() == 25);
        reveal_strlit("common.Control.gridNext");
        assert("common.Control.gridNext"@.len() == 23);
        reveal_strlit("common.Control.toggleUnits");
        assert("common.Control.toggleUnits"@.len() == 26);
        reveal_strlit("kicad.ui.toggleTheme");
        assert("kicad.ui.toggleTheme"@.len() == 20);
        reveal_strlit("kicad.ui.toggleLeftPanel");
        assert("kicad.ui.toggleLeftPanel"@.len() == 24);
        reveal_strlit("kicad.ui.toggleRightPanel");
        assert("kicad.ui.toggleRightPanel"@.len() == 25);
        reveal_strlit("kicad.ui.toggleFrameStats");
        assert("kicad.ui.toggleFrameStats"@.len() == 25);
        reveal_strlit("kicad.ui.openCommandPalette");
        assert("kicad.ui.openCommandPalette"@.len() == 27);
        reveal_strlit("common.Interactive.cancel");
        assert("common.Interactive.cancel"@.len() == 25);
        assert("gpui.FieldCaseConflicts"@ != "gpui.SchematicDataSources"@);
        assert("gpui.FieldCaseConflicts"@ != "gpui.MigrateBuses"@);
        assert("gpui.FieldCaseConflicts"@ != "gpui.Setup.buses"@);
        assert("gpui.FieldCaseConflicts"@ != "gpui.Setup.netclasses"@);
        assert("gpui.FieldCaseConflicts"@ != "gpui.Setup.netchains"@);
        assert("gpui.FieldCaseConflicts"@ != "gpui.Setup.import"@);
        assert("gpui.FieldCaseConflicts"@ != "gpui.RemoteSymbols.settings"@);
        assert("gpui.FieldCaseConflicts"@ != "common.Control.quit"@);
        assert("gpui.FieldCaseConflicts"@ != "common.Control.zoomIn"@);
        assert("gpui.FieldCaseConflicts"@ != "common.Control.zoomOut"@);
        assert("gpui.FieldCaseConflicts"@ != "common.Control.zoomFitScreen"@);
        assert("gpui.FieldCaseConflicts"@ != "common.Control.zoomFitObjects"@);
        assert("gpui.FieldCaseConflicts"@ != "common.Control.zoomPreset"@);
        assert("gpui.FieldCaseConflicts"@ != "common.Control.toggleGrid"@);
        assert("gpui.FieldCaseConflicts"@[0] != "common.Control.gridNext"@[0]);
        assert("gpui.FieldCaseConflicts"@ != "common.Control.gridNext"@);
        assert("gpui.FieldCaseConflicts"@ != "common.Control.toggleUnits"@);
        assert("gpui.FieldCaseConflicts"@ != "kicad.ui.toggleTheme"@);
        assert("gpui.FieldCaseConflicts"@ != "kicad.ui.toggleLeftPanel"@);
        assert("gpui.FieldCaseConflicts"@ != "kicad.ui.toggleRightPanel"@);
        assert("gpui.FieldCaseConflicts"@ != "kicad.ui.toggleFrameStats"@);
        assert("gpui.FieldCaseConflicts"@ != "kicad.ui.openCommandPalette"@);
        assert("gpui.FieldCaseConflicts"@ != "common.Interactive.cancel"@);
        assert("gpui.SchematicDataSources"@ != "gpui.MigrateBuses"@);
        assert("gpui.SchematicDataSources"@ != "gpui.Setup.buses"@);
        assert("gpui.SchematicDataSources"@ != "gpui.Setup.netclasses"@);
        assert("gpui.SchematicDataSources"@ != "gpui.Setup.netchains"@);
        assert("gpui.SchematicDataSources"@ != "gpui.Setup.import"@);
        assert("gpui.SchematicDataSources"@ != "gpui.RemoteSymbols.settings"@);
        assert("gpui.SchematicDataSources"@ != "common.Control.quit"@);
        assert("gpui.SchematicDataSources"@ != "common.Control.zoomIn"@);
        assert("gpui.SchematicDataSources"@ != "common.Control.zoomOut"@);
        assert("gpui.SchematicDataSources"@ != "common.Control.zoomFitScreen"@);
        assert("gpui.SchematicDataSources"@ != "common.Control.zoomFitObjects"@);
        assert("gpui.SchematicDataSources"@[0] != "common.Control.zoomPreset"@[0]);
        assert("gpui.SchematicDataSources"@ != "common.Control.zoomPreset"@);
        assert("gpui.SchematicDataSources"@[0] != "common.Control.toggleGrid"@[0]);
        assert("gpui.SchematicDataSources"@ != "common.Control.toggleGrid"@);
        assert("gpui.SchematicDataSources"@ != "common.Control.gridNext"@);
        assert("gpui.SchematicDataSources"@ != "common.Control.toggleUnits"@);
        assert("gpui.SchematicDataSources"@ != "kicad.ui.toggleTheme"@);
        assert("gpui.SchematicDataSources"@ != "kicad.ui.toggleLeftPanel"@);
        assert("gpui.SchematicDataSources"@[0] != "kicad.ui.toggleRightPanel"@[0]);
        assert("gpui.SchematicDataSources"@ != "kicad.ui.toggleRightPanel"@);
        assert("gpui.SchematicDataSources"@[0] != "kicad.ui.toggleFrameStats"@[0]);
        assert("gpui.SchematicDataSources"@ != "kicad.ui.toggleFrameStats"@);
        assert("gpui.SchematicDataSources"@ != "kicad.ui.openCommandPalette"@);
        assert("gpui.SchematicDataSources"@[0] != "common.Interactive.cancel"@[0]);
        assert("gpui.SchematicDataSources"@ != "common.Interactive.cancel"@);
        assert("gpui.MigrateBuses"@ != "gpui.Setup.buses"@);
        assert("gpui.MigrateBuses"@ != "gpui.Setup.netclasses"@);
        assert("gpui.MigrateBuses"@ != "gpui.Setup.netchains"@);
        assert("gpui.MigrateBuses"@[5] != "gpui.Setup.import"@[5]);
        assert("gpui.MigrateBuses"@ != "gpui.Setup.import"@);
        assert("gpui.MigrateBuses"@ != "gpui.RemoteSymbols.settings"@);
        assert("gpui.MigrateBuses"@ != "common.Control.quit"@);
        assert("gpui.MigrateBuses"@ != "common.Control.zoomIn"@);
        assert("gpui.MigrateBuses"@ != "common.Control.zoomOut"@);
        assert("gpui.MigrateBuses"@ != "common.Control.zoomFitScreen"@);
        assert("gpui.MigrateBuses"@ != "common.Control.zoomFitObjects"@);
        assert("gpui.MigrateBuses"@ != "common.Control.zoomPreset"@);
        assert("gpui.MigrateBuses"@ != "common.Control.toggleGrid"@);
        assert("gpui.MigrateBuses"@ != "common.Control.gridNext"@);
        assert("gpui.MigrateBuses"@ != "common.Control.toggleUnits"@);
        assert("gpui.MigrateBuses"@ != "kicad.ui.toggleTheme"@);
        assert("gpui.MigrateBuses"@ != "kicad.ui.toggleLeftPanel"@);
        assert("gpui.MigrateBuses"@ != "kicad.ui.toggleRightPanel"@);
        assert("gpui.MigrateBuses"@ != "kicad.ui.toggleFrameStats"@);
        assert("gpui.MigrateBuses"@ != "kicad.ui.openCommandPalette"@);
        assert("gpui.MigrateBuses"@ != "common.Interactive.cancel"@);
        assert("gpui.Setup.buses"@ != "gpui.Setup.netclasses"@);
        assert("gpui.Setup.buses"@ != "gpui.Setup.netchains"@);
        assert("gpui.Setup.buses"@ != "gpui.Setup.import"@);
        assert("gpui.Setup.buses"@ != "gpui.RemoteSymbols.settings"@);
        assert("gpui.Setup.buses"@ != "common.Control.quit"@);
        assert("gpui.Setup.buses"@ != "common.Control.zoomIn"@);
        assert("gpui.Setup.buses"@ != "common.Control.zoomOut"@);
        assert("gpui.Setup.buses"@ != "common.Control.zoomFitScreen"@);
        assert("gpui.Setup.buses"@ != "common.Control.zoomFitObjects"@);
        assert("gpui.Setup.buses"@ != "common.Control.zoomPreset"@);
        assert("gpui.Setup.buses"@ != "common.Control.toggleGrid"@);
        assert("gpui.Setup.buses"@ != "common.Control.gridNext"@);
        assert("gpui.Setup.buses"@ != "common.Control.toggleUnits"@);
        assert("gpui.Setup.buses"@ != "kicad.ui.toggleTheme"@);
        assert("gpui.Setup.buses"@ != "kicad.ui.toggleLeftPanel"@);
        assert("gpui.Setup.buses"@ != "kicad.ui.toggleRightPanel"@);
        assert("gpui.Setup.buses"@ != "kicad.ui.toggleFrameStats"@);
        assert("gpui.Setup.buses"@ != "kicad.ui.openCommandPalette"@);
        assert("gpui.Setup.buses"@ != "common.Interactive.cancel"@);
        assert("gpui.Setup.netclasses"@ != "gpui.Setup.netchains"@);
        assert("gpui.Setup.netclasses"@ != "gpui.Setup.import"@);
        assert("gpui.Setup.netclasses"@ != "gpui.RemoteSymbols.settings"@);
        assert("gpui.Setup.netclasses"@ != "common.Control.quit"@);
        assert("gpui.Setup.netclasses"@[0] != "common.Control.zoomIn"@[0]);
        assert("gpui.Setup.netclasses"@ != "common.Control.zoomIn"@);
        assert("gpui.Setup.netclasses"@ != "common.Control.zoomOut"@);
        assert("gpui.Setup.netclasses"@ != "common.Control.zoomFitScreen"@);
        assert("gpui.Setup.netclasses"@ != "common.Control.zoomFitObjects"@);
        assert("gpui.Setup.netclasses"@ != "common.Control.zoomPreset"@);
        assert("gpui.Setup.netclasses"@ != "common.Control.toggleGrid"@);
        assert("gpui.Setup.netclasses"@ != "common.Control.gridNext"@);
        assert("gpui.Setup.netclasses"@ != "common.Control.toggleUnits"@);
        assert("gpui.Setup.netclasses"@ != "kicad.ui.toggleTheme"@);
        assert("gpui.Setup.netclasses"@ != "kicad.ui.toggleLeftPanel"@);
        assert("gpui.Setup.netclasses"@ != "kicad.ui.toggleRightPanel"@);
        assert("gpui.Setup.netclasses"@ != "kicad.ui.toggleFrameStats"@);
        assert("gpui.Setup.netclasses"@ != "kicad.ui.openCommandPalette"@);
        assert("gpui.Setup.netclasses"@ != "common.Interactive.cancel"@);
        assert("gpui.Setup.netchains"@ != "gpui.Setup.import"@);
        assert("gpui.Setup.netchains"@ != "gpui.RemoteSymbols.settings"@);
        assert("gpui.Setup.netchains"@ != "common.Control.quit"@);
        assert("gpui.Setup.netchains"@ != "common.Control.zoomIn"@);
        assert("gpui.Setup.netchains"@ != "common.Control.zoomOut"@);
        assert("gpui.Setup.netchains"@ != "common.Control.zoomFitScreen"@);
        assert("gpui.Setup.netchains"@ != "common.Control.zoomFitObjects"@);
        assert("gpui.Setup.netchains"@ != "common.Control.zoomPreset"@);
        assert("gpui.Setup.netchains"@ != "common.Control.toggleGrid"@);
        assert("gpui.Setup.netchains"@ != "common.Control.gridNext"@);
        assert("gpui.Setup.netchains"@ != "common.Control.toggleUnits"@);
        assert("gpui.Setup.netchains"@[0] != "kicad.ui.toggleTheme"@[0]);
        assert("gpui.Setup.netchains"@ != "kicad.ui.toggleTheme"@);
        assert("gpui.Setup.netchains"@ != "kicad.ui.toggleLeftPanel"@);
        assert("gpui.Setup.netchains"@ != "kicad.ui.toggleRightPanel"@);
        assert("gpui.Setup.netchains"@ != "kicad.ui.toggleFrameStats"@);
        assert("gpui.Setup.netchains"@ != "kicad.ui.openCommandPalette"@);
        assert("gpui.Setup.netchains"@ != "common.Interactive.cancel"@);
        assert("gpui.Setup.import"@ != "gpui.RemoteSymbols.settings"@);
        assert("gpui.Setup.import"@ != "common.Control.quit"@);
        assert("gpui.Setup.import"@ != "common.Control.zoomIn"@);
        assert("gpui.Setup.import"@ != "common.Control.zoomOut"@);
        assert("gpui.Setup.import"@ != "common.Control.zoomFitScreen"@);
        assert("gpui.Setup.import"@ != "common.Control.zoomFitObjects"@);
        assert("gpui.Setup.import"@ != "common.Control.zoomPreset"@);
        assert("gpui.Setup.import"@ != "common.Control.toggleGrid"@);
        assert("gpui.Setup.import"@ != "common.Control.gridNext"@);
        assert("gpui.Setup.import"@ != "common.Control.toggleUnits"@);
        assert("gpui.Setup.import"@ != "kicad.ui.toggleTheme"@);
        assert("gpui.Setup.import"@ != "kicad.ui.toggleLeftPanel"@);
        assert("gpui.Setup.import"@ != "kicad.ui.toggleRightPanel"@);
        assert("gpui.Setup.import"@ != "kicad.ui.toggleFrameStats"@);
        assert("gpui.Setup.import"@ != "kicad.ui.openCommandPalette"@);
        assert("gpui.Setup.import"@ != "common.Interactive.cancel"@);
        assert("gpui.RemoteSymbols.settings"@ != "common.Control.quit"@);
        assert("gpui.RemoteSymbols.settings"@ != "common.Control.zoomIn"@);
        assert("gpui.RemoteSymbols.settings"@ != "common.Control.zoomOut"@);
        assert("gpui.RemoteSymbols.settings"@ != "common.Control.zoomFitScreen"@);
        assert("gpui.RemoteSymbols.settings"@ != "common.Control.zoomFitObjects"@);
        assert("gpui.RemoteSymbols.settings"@ != "common.Control.zoomPreset"@);
        assert("gpui.RemoteSymbols.settings"@ != "common.Control.toggleGrid"@);
        assert("gpui.RemoteSymbols.settings"@ != "common.Control.gridNext"@);
        assert("gpui.RemoteSymbols.settings"@ != "common.Control.toggleUnits"@);
        assert("gpui.RemoteSymbols.settings"@ != "kicad.ui.toggleTheme"@);
        assert("gpui.RemoteSymbols.settings"@ != "kicad.ui.toggleLeftPanel"@);
        assert("gpui.RemoteSymbols.settings"@ != "kicad.ui.toggleRightPanel"@);
        assert("gpui.RemoteSymbols.settings"@ != "kicad.ui.toggleFrameStats"@);
        assert("gpui.RemoteSymbols.settings"@[0] != "kicad.ui.openCommandPalette"@[0]);
        assert("gpui.RemoteSymbols.settings"@ != "kicad.ui.openCommandPalette"@);
        assert("gpui.RemoteSymbols.settings"@ != "common.Interactive.cancel"@);
        assert("common.Control.quit"@ != "common.Control.zoomIn"@);
        assert("common.Control.quit"@ != "common.Control.zoomOut"@);
        assert("common.Control.quit"@ != "common.Control.zoomFitScreen"@);
        assert("common.Control.quit"@ != "common.Control.zoomFitObjects"@);
        assert("common.Control.quit"@ != "common.Control.zoomPreset"@);
        assert("common.Control.quit"@ != "common.Control.toggleGrid"@);
        assert("common.Control.quit"@ != "common.Control.gridNext"@);
        assert("common.Control.quit"@ != "common.Control.toggleUnits"@);
        assert("common.Control.quit"@ != "kicad.ui.toggleTheme"@);
        assert("common.Control.quit"@ != "kicad.ui.toggleLeftPanel"@);
        assert("common.Control.quit"@ != "kicad.ui.toggleRightPanel"@);
        assert("common.Control.quit"@ != "kicad.ui.toggleFrameStats"@);
        assert("common.Control.quit"@ != "kicad.ui.openCommandPalette"@);
        assert("common.Control.quit"@ != "common.Interactive.cancel"@);
        assert("common.Control.zoomIn"@ != "common.Control.zoomOut"@);
        assert("common.Control.zoomIn"@ != "common.Control.zoomFitScreen"@);
        assert("common.Control.zoomIn"@ != "common.Control.zoomFitObjects"@);
        assert("common.Control.zoomIn"@ != "common.Control.zoomPreset"@);
        assert("common.Control.zoomIn"@ != "common.Control.toggleGrid"@);
        assert("common.Control.zoomIn"@ != "common.Control.gridNext"@);
        assert("common.Control.zoomIn"@ != "common.Control.toggleUnits"@);
        assert("common.Control.zoomIn"@ != "kicad.ui.toggleTheme"@);
        assert("common.Control.zoomIn"@ != "kicad.ui.toggleLeftPanel"@);
        assert("common.Control.zoomIn"@ != "kicad.ui.toggleRightPanel"@);
        assert("common.Control.zoomIn"@ != "kicad.ui.toggleFrameStats"@);
        assert("common.Control.zoomIn"@ != "kicad.ui.openCommandPalette"@);
        assert("common.Control.zoomIn"@ != "common.Interactive.cancel"@);
        assert("common.Control.zoomOut"@ != "common.Control.zoomFitScreen"@);
        assert("common.Control.zoomOut"@ != "common.Control.zoomFitObjects"@);
        assert("common.Control.zoomOut"@ != "common.Control.zoomPreset"@);
        assert("common.Control.zoomOut"@ != "common.Control.toggleGrid"@);
        assert("common.Control.zoomOut"@ != "common.Control.gridNext"@);
        assert("common.Control.zoomOut"@ != "common.Control.toggleUnits"@);
        assert("common.Control.zoomOut"@ != "kicad.ui.toggleTheme"@);
        assert("common.Control.zoomOut"@ != "kicad.ui.toggleLeftPanel"@);
        assert("common.Control.zoomOut"@ != "kicad.ui.toggleRightPanel"@);
        assert("common.Control.zoomOut"@ != "kicad.ui.toggleFrameStats"@);
        assert("common.Control.zoomOut"@ != "kicad.ui.openCommandPalette"@);
        assert("common.Control.zoomOut"@ != "common.Interactive.cancel"@);
        assert("common.Control.zoomFitScreen"@ != "common.Control.zoomFitObjects"@);
        assert("common.Control.zoomFitScreen"@ != "common.Control.zoomPreset"@);
        assert("common.Control.zoomFitScreen"@ != "common.Control.toggleGrid"@);
        assert("common.Control.zoomFitScreen"@ != "common.Control.gridNext"@);
        assert("common.Control.zoomFitScreen"@ != "common.Control.toggleUnits"@);
        assert("common.Control.zoomFitScreen"@ != "kicad.ui.toggleTheme"@);
        assert("common.Control.zoomFitScreen"@ != "kicad.ui.toggleLeftPanel"@);
        assert("common.Control.zoomFitScreen"@ != "kicad.ui.toggleRightPanel"@);
        assert("common.Control.zoomFitScreen"@ != "kicad.ui.toggleFrameStats"@);
        assert("common.Control.zoomFitScreen"@ != "kicad.ui.openCommandPalette"@);
        assert("common.Control.zoomFitScreen"@ != "common.Interactive.cancel"@);
        assert("common.Control.zoomFitObjects"@ != "common.Control.zoomPreset"@);
        assert("common.Control.zoomFitObjects"@ != "common.Control.toggleGrid"@);
        assert("common.Control.zoomFitObjects"@ != "common.Control.gridNext"@);
        assert("common.Control.zoomFitObjects"@ != "common.Control.toggleUnits"@);
        assert("common.Control.zoomFitObjects"@ != "kicad.ui.toggleTheme"@);
        assert("common.Control.zoomFitObjects"@ != "kicad.ui.toggleLeftPanel"@);
        assert("common.Control.zoomFitObjects"@ != "kicad.ui.toggleRightPanel"@);
        assert("common.Control.zoomFitObjects"@ != "kicad.ui.toggleFrameStats"@);
        assert("common.Control.zoomFitObjects"@ != "kicad.ui.openCommandPalette"@);
        assert("common.Control.zoomFitObjects"@ != "common.Interactive.cancel"@);
        assert("common.Control.zoomPreset"@[15] != "common.Control.toggleGrid"@[15]);
        assert("common.Control.zoomPreset"@ != "common.Control.toggleGrid"@);
        assert("common.Control.zoomPreset"@ != "common.Control.gridNext"@);
        assert("common.Control.zoomPreset"@ != "common.Control.toggleUnits"@);
        assert("common.Control.zoomPreset"@ != "kicad.ui.toggleTheme"@);
        assert("common.Control.zoomPreset"@ != "kicad.ui.toggleLeftPanel"@);
        assert("common.Control.zoomPreset"@[0] != "kicad.ui.toggleRightPanel"@[0]);
        assert("common.Control.zoomPreset"@ != "kicad.ui.toggleRightPanel"@);
        assert("common.Control.zoomPreset"@[0] != "kicad.ui.toggleFrameStats"@[0]);
        assert("common.Control.zoomPreset"@ != "kicad.ui.toggleFrameStats"@);
        assert("common.Control.zoomPreset"@ != "kicad.ui.openCommandPalette"@);
        assert("common.Control.zoomPreset"@[7] != "common.Interactive.cancel"@[7]);
        assert("common.Control.zoomPreset"@ != "common.Interactive.cancel"@);
        assert("common.Control.toggleGrid"@ != "common.Control.gridNext"@);
        assert("common.Control.toggleGrid"@ != "common.Control.toggleUnits"@);
        assert("common.Control.toggleGrid"@ != "kicad.ui.toggleTheme"@);
        assert("common.Control.toggleGrid"@ != "kicad.ui.toggleLeftPanel"@);
        assert("common.Control.toggleGrid"@[0] != "kicad.ui.toggleRightPanel"@[0]);
        assert("common.Control.toggleGrid"@ != "kicad.ui.toggleRightPanel"@);
        assert("common.Control.toggleGrid"@[0] != "kicad.ui.toggleFrameStats"@[0]);
        assert("common.Control.toggleGrid"@ != "kicad.ui.toggleFrameStats"@);
        assert("common.Control.toggleGrid"@ != "kicad.ui.openCommandPalette"@);
        assert("common.Control.toggleGrid"@[7] != "common.Interactive.cancel"@[7]);
        assert("common.Control.toggleGrid"@ != "common.Interactive.cancel"@);
        assert("common.Control.gridNext"@ != "common.Control.toggleUnits"@);
        assert("common.Control.gridNext"@ != "kicad.ui.toggleTheme"@);
        assert("common.Control.gridNext"@ != "kicad.ui.toggleLeftPanel"@);
        assert("common.Control.gridNext"@ != "kicad.ui.toggleRightPanel"@);
        assert("common.Control.gridNext"@ != "kicad.ui.toggleFrameStats"@);
        assert("common.Control.gridNext"@ != "kicad.ui.openCommandPalette"@);
        assert("common.Control.gridNext"@ != "common.Interactive.cancel"@);
        assert("common.Control.toggleUnits"@ != "kicad.ui.toggleTheme"@);
        assert("common.Control.toggleUnits"@ != "kicad.ui.toggleLeftPanel"@);
        assert("common.Control.toggleUnits"@ != "kicad.ui.toggleRightPanel"@);
        assert("common.Control.toggleUnits"@ != "kicad.ui.toggleFrameStats"@);
        assert("common.Control.toggleUnits"@ != "kicad.ui.openCommandPalette"@);
        assert("common.Control.toggleUnits"@ != "common.Interactive.cancel"@);
        assert("kicad.ui.toggleTheme"@ != "kicad.ui.toggleLeftPanel"@);
        assert("kicad.ui.toggleTheme"@ != "kicad.ui.toggleRightPanel"@);
        assert("kicad.ui.toggleTheme"@ != "kicad.ui.toggleFrameStats"@);
        assert("kicad.ui.toggleTheme"@ != "kicad.ui.openCommandPalette"@);
        assert("kicad.ui.toggleTheme"@ != "common.Interactive.cancel"@);
        assert("kicad.ui.toggleLeftPanel"@ != "kicad.ui.toggleRightPanel"@);
        assert("kicad.ui.toggleLeftPanel"@ != "kicad.ui.toggleFrameStats"@);
        assert("kicad.ui.toggleLeftPanel"@ != "kicad.ui.openCommandPalette"@);
        assert("kicad.ui.toggleLeftPanel"@ != "common.Interactive.cancel"@);
        assert("kicad.ui.toggleRightPanel"@[15] != "kicad.ui.toggleFrameStats"@[15]);
        assert("kicad.ui.toggleRightPanel"@ != "kicad.ui.toggleFrameStats"@);
        assert("kicad.ui.toggleRightPanel"@ != "kicad.ui.openCommandPalette"@);
        assert("kicad.ui.toggleRightPanel"@[0] != "common.Interactive.cancel"@[0]);
        assert("kicad.ui.toggleRightPanel"@ != "common.Interactive.cancel"@);
        assert("kicad.ui.toggleFrameStats"@ != "kicad.ui.openCommandPalette"@);
        assert("kicad.ui.toggleFrameStats"@[0] != "common.Interactive.cancel"@[0]);
        assert("kicad.ui.toggleFrameStats"@ != "common.Interactive.cancel"@);
        assert("kicad.ui.openCommandPalette"@ != "common.Interactive.cancel"@);
        assert(shell_command_name(ShellCommand::FieldCaseConflicts) == "gpui.FieldCaseConflicts");
        assert(shell_command_name(ShellCommand::SchematicDataSources) == "gpui.SchematicDataSources");
        assert(shell_command_name(ShellCommand::MigrateBuses) == "gpui.MigrateBuses");
        assert(shell_command_name(ShellCommand::BusAliases) == "gpui.Setup.buses");
        assert(shell_command_name(ShellCommand::Netclasses) == "gpui.Setup.netclasses");
        assert(shell_command_name(ShellCommand::NetChains) == "gpui.Setup.netchains");
        assert(shell_command_name(ShellCommand::ImportSettings) == "gpui.Setup.import");
        assert(shell_command_name(ShellCommand::RemoteSymbolSettings) == "gpui.RemoteSymbols.settings");
        assert(shell_command_name(ShellCommand::Quit) == "common.Control.quit");
        assert(shell_command_name(ShellCommand::ZoomIn) == "common.Control.zoomIn");
        assert(shell_command_name(ShellCommand::ZoomOut) == "common.Control.zoomOut");
        assert(shell_command_name(ShellCommand::ZoomToFit) == "common.Control.zoomFitScreen");
        assert(shell_command_name(ShellCommand::ZoomToObjects) == "common.Control.zoomFitObjects");
        assert(shell_command_name(ShellCommand::ZoomActualSize) == "common.Control.zoomPreset");
        assert(shell_command_name(ShellCommand::ToggleGrid) == "common.Control.toggleGrid");
        assert(shell_command_name(ShellCommand::CycleGrid) == "common.Control.gridNext");
        assert(shell_command_name(ShellCommand::ToggleUnits) == "common.Control.toggleUnits");
        assert(shell_command_name(ShellCommand::ToggleTheme) == "kicad.ui.toggleTheme");
        assert(shell_command_name(ShellCommand::ToggleLeftPanel) == "kicad.ui.toggleLeftPanel");
        assert(shell_command_name(ShellCommand::ToggleRightPanel) == "kicad.ui.toggleRightPanel");
        assert(shell_command_name(ShellCommand::ToggleFrameStats) == "kicad.ui.toggleFrameStats");
        assert(shell_command_name(ShellCommand::OpenCommandPalette) == "kicad.ui.openCommandPalette");
        assert(shell_command_name(ShellCommand::CancelTool) == "common.Interactive.cancel");
    }
}

/// Chrome reports under the `kicad.ui.` prefix and nothing else does.
pub proof fn lemma_chrome_names_are_shell_local(command: ShellCommand)
    ensures
        is_chrome(command) <==> (shell_command_name(command)@.len() >= 9
            && shell_command_name(command)@.subrange(0, 9) == "kicad.ui."@),
{
    reveal_strlit("kicad.ui.");
    match command {
        ShellCommand::FieldCaseConflicts => {
            reveal_strlit("gpui.FieldCaseConflicts");
            assert("gpui.FieldCaseConflicts"@.subrange(0, 9)[0] != "kicad.ui."@[0]);
        },
        ShellCommand::SchematicDataSources => {
            reveal_strlit("gpui.SchematicDataSources");
            assert("gpui.SchematicDataSources"@.subrange(0, 9)[0] != "kicad.ui."@[0]);
        },
        ShellCommand::MigrateBuses => {
            reveal_strlit("gpui.MigrateBuses");
            assert("gpui.MigrateBuses"@.subrange(0, 9)[0] != "kicad.ui."@[0]);
        },
        ShellCommand::BusAliases => {
            reveal_strlit("gpui.Setup.buses");
            assert("gpui.Setup.buses"@.subrange(0, 9)[0] != "kicad.ui."@[0]);
        },
        ShellCommand::Netclasses => {
            reveal_strlit("gpui.Setup.netclasses");
            assert("gpui.Setup.netclasses"@.subrange(0, 9)[0] != "kicad.ui."@[0]);
        },
        ShellCommand::NetChains => {
            reveal_strlit("gpui.Setup.netchains");
            assert("gpui.Setup.netchains"@.subrange(0, 9)[0] != "kicad.ui."@[0]);
        },
        ShellCommand::ImportSettings => {
            reveal_strlit("gpui.Setup.import");
            assert("gpui.Setup.import"@.subrange(0, 9)[0] != "kicad.ui."@[0]);
        },
        ShellCommand::RemoteSymbolSettings => {
            reveal_strlit("gpui.RemoteSymbols.settings");
            assert("gpui.RemoteSymbols.settings"@.subrange(0, 9)[0] != "kicad.ui."@[0]);
        },
        ShellCommand::Quit => {
            reveal_strlit("common.Control.quit");
            assert("common.Control.quit"@.subrange(0, 9)[0] != "kicad.ui."@[0]);
        },
        ShellCommand::ZoomIn => {
            reveal_strlit("common.Control.zoomIn");
            assert("common.Control.zoomIn"@.subrange(0, 9)[0] != "kicad.ui."@[0]);
        },
        ShellCommand::ZoomOut => {
            reveal_strlit("common.Control.zoomOut");
            assert("common.Control.zoomOut"@.subrange(0, 9)[0] != "kicad.ui."@[0]);
        },
        ShellCommand::ZoomToFit => {
            reveal_strlit("common.Control.zoomFitScreen");
            assert("common.Control.zoomFitScreen"@.subrange(0, 9)[0] != "kicad.ui."@[0]);
        },
        ShellCommand::ZoomToObjects => {
            reveal_strlit("common.Control.zoomFitObjects");
            assert("common.Control.zoomFitObjects"@.subrange(0, 9)[0] != "kicad.ui."@[0]);
        },
        ShellCommand::ZoomActualSize => {
            reveal_strlit("common.Control.zoomPreset");
            assert("common.Control.zoomPreset"@.subrange(0, 9)[0] != "kicad.ui."@[0]);
        },
        ShellCommand::ToggleGrid => {
            reveal_strlit("common.Control.toggleGrid");
            assert("common.Control.toggleGrid"@.subrange(0, 9)[0] != "kicad.ui."@[0]);
        },
        ShellCommand::CycleGrid => {
            reveal_strlit("common.Control.gridNext");
            assert("common.Control.gridNext"@.subrange(0, 9)[0] != "kicad.ui."@[0]);
        },
        ShellCommand::ToggleUnits => {
            reveal_strlit("common.Control.toggleUnits");
            assert("common.Control.toggleUnits"@.subrange(0, 9)[0] != "kicad.ui."@[0]);
        },
        ShellCommand::ToggleTheme => {
            reveal_strlit("kicad.ui.toggleTheme");
            assert("kicad.ui.toggleTheme"@.subrange(0, 9) =~= "kicad.ui."@);
        },
        ShellCommand::ToggleLeftPanel => {
            reveal_strlit("kicad.ui.toggleLeftPanel");
            assert("kicad.ui.toggleLeftPanel"@.subrange(0, 9) =~= "kicad.ui."@);
        },
        ShellCommand::ToggleRightPanel => {
            reveal_strlit("kicad.ui.toggleRightPanel");
            assert("kicad.ui.toggleRightPanel"@.subrange(0, 9) =~= "kicad.ui."@);
        },
        ShellCommand::ToggleFrameStats => {
            reveal_strlit("kicad.ui.toggleFrameStats");
            assert("kicad.ui.toggleFrameStats"@.subrange(0, 9) =~= "kicad.ui."@);
        },
        ShellCommand::OpenCommandPalette => {
            reveal_strlit("kicad.ui.openCommandPalette");
            assert("kicad.ui.openCommandPalette"@.subrange(0, 9) =~= "kicad.ui."@);
        },
        ShellCommand::CancelTool => {
            reveal_strlit("common.Interactive.cancel");
            assert("common.Interactive.cancel"@.subrange(0, 9)[0] != "kicad.ui."@[0]);
        },
    }
}

} // verus!
