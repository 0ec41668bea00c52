use vstd::prelude::*;

use crate::options::ExportError;

verus! {

/// The kind of a package: only libraries have exported entry points.
#[derive(Clone, Copy, Debug, PartialEq, Eq, Structural)]
pub enum PackageKind {
    Library,
    Binary,
}

/// One member of a resolved workspace.
#[derive(Clone, Debug)]
pub struct Package {
    pub name: String,
    pub kind: PackageKind,
}

impl Package {
    pub fn is_library(&self) -> (r: bool)
        ensures
            r == (self.kind == PackageKind::Library),
    {
        self.kind == PackageKind::Library
    }
}

/// The indices, in order, of the library packages among the first `n` of `ps`.
pub open spec fn library_prefix(ps: Seq<Package>, n: nat) -> Seq<usize>
    decreases n,
{
    if n == 0 {
        Seq::empty()
    } else {
        let p = library_prefix(ps, (n - 1) as nat);
        if ps[n - 1].kind == PackageKind::Library {
            p.push((n - 1) as usize)
        } else {
            p
        }
    }
}

/// The indices, in order, of the library packages of `ps`.
pub open spec fn library_indices(ps: Seq<Package>) -> Seq<usize> {
    library_prefix(ps, ps.len())
}

/// The packages (by index) that take part in export compilation: the
/// libraries, in workspace order. Binary packages are left out.
pub fn library_packages(packages: &Vec<Package>) -> (r: Vec<usize>)
    ensures
        r@ == library_indices(packages@),
{
    let mut r: Vec<usize> = Vec::new();
    let n = packages.len();
    let mut i: usize = 0;
    while i < n
        invariant
            n == packages@.len(),
            0 <= i <= n,
            r@ == library_prefix(packages@, i as nat),
        decreases n - i,
    {
        if packages[i].is_library() {
            r.push(i);
        }
        i = i + 1;
    }
    r
}

/// The outcome of a whole run: the first failure among the packages' results,
/// or success when every package succeeded (also when there are none).
pub open spec fn first_failure(rs: Seq<Result<(), ExportError>>) -> Result<(), ExportError>
    decreases rs.len(),
{
    if rs.len() == 0 {
        Ok(())
    } else if rs[0] is Err {
        rs[0]
    } else {
        first_failure(rs.drop_first())
    }
}

/// Folds the results of the packages, in package order, into the result of the
/// run.
pub fn aggregate_results(results: &Vec<Result<(), ExportError>>) -> (r: Result<(), ExportError>)
    ensures
        r == first_failure(results@),
        r is Ok <==> forall|i: int| 0 <= i < results@.len() ==> results@[i] is Ok,
{
    let n = results.len();
    let mut i: usize = 0;
    assert(results@.subrange(0, n as int) =~= results@);
    while i < n
        invariant
            n == results@.len(),
            0 <= i <= n,
            forall|j: int| 0 <= j < i ==> results@[j] is Ok,
            first_failure(results@) == first_failure(results@.subrange(i as int, n as int)),
        decreases n - i,
    {
        let ghost rest = results@.subrange(i as int, n as int);
        assert(rest.drop_first() =~= results@.subrange(i + 1, n as int));
        match &results[i] {
            Err(e) => {
                return Err(*e);
            },
            Ok(()) => {},
        }
        i = i + 1;
    }
    Ok(())
}

} // verus!
