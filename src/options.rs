use vstd::prelude::*;

verus! {

/// The options threaded unchanged through every stage of an export run.
#[derive(Clone, Copy, Debug, PartialEq, Eq, Structural)]
pub struct CompileOptions {
    /// Treat warning-level diagnostics as failures.
    pub deny_warnings: bool,
    /// Skip macro expansion during checking.
    pub disable_macros: bool,
    /// Do not print warning-level diagnostics (they still count under `deny_warnings`).
    pub silence_warnings: bool,
}

/// Which packages of a workspace a run selects.
#[derive(Clone, Debug, PartialEq, Eq)]
pub enum PackageSelection {
    /// The one package with this name.
    Selected(String),
    /// Every package of the workspace.
    All,
    /// The default package where the manifest names one, else every package.
    DefaultOrAll,
}

/// Why an export run failed.
#[derive(Clone, Copy, Debug, PartialEq, Eq, Structural)]
pub enum ExportError {
    /// A single package and the whole workspace were both asked for.
    ConflictingSelection,
    /// Semantic checking of a package failed under the warnings policy.
    CheckFailed,
    /// The entry point at this index, in discovery order, failed to compile.
    CompileFailed { entry: usize },
}

/// Turns the two mutually exclusive selection flags into a selection.
pub fn select_packages(package: Option<String>, workspace: bool) -> (r: Result<PackageSelection, ExportError>)
    ensures
        package is Some && workspace ==> r == Err::<PackageSelection, ExportError>(ExportError::ConflictingSelection),
        package is Some && !workspace ==> r is Ok && r->Ok_0 is Selected
            && r->Ok_0->Selected_0@ == package->Some_0@,
        package is None && workspace ==> r == Ok::<PackageSelection, ExportError>(PackageSelection::All),
        package is None && !workspace ==> r == Ok::<PackageSelection, ExportError>(PackageSelection::DefaultOrAll),
{
    match package {
        Some(name) => {
            if workspace {
                Err(ExportError::ConflictingSelection)
            } else {
                Ok(PackageSelection::Selected(name))
            }
        },
        None => {
            if workspace {
                Ok(PackageSelection::All)
            } else {
                Ok(PackageSelection::DefaultOrAll)
            }
        },
    }
}

} // verus!
