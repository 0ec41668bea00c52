use vstd::prelude::*;

verus! {

/// The name of the file that holds the artifact of the entry point `entry`:
/// the entry point's name with the extension `.json`.
pub open spec fn artifact_file(entry: Seq<char>) -> Seq<char> {
    entry + seq!['.', 'j', 's', 'o', 'n']
}

/// The file name under which the artifact of an entry point is written in the
/// workspace's export directory.
///
/// The name does not carry the package: entry points of two packages that share
/// a name write the same file, and the later write replaces the earlier one.
pub fn artifact_file_name(entry: &str) -> (r: String)
    ensures
        r@ == artifact_file(entry@),
{
    let ext = ".json";
    proof {
        reveal_strlit(".json");
    }
    assert(ext@ =~= seq!['.', 'j', 's', 'o', 'n']);
    String::from_str(entry).concat(ext)
}

/// An export directory seen as a map from file name to file contents.
pub type ExportDir = Map<Seq<char>, Seq<u8>>;

/// The directory after writing each (file name, contents) pair of `writes`, in
/// order; a write replaces any file of the same name.
pub open spec fn written_after(dir: ExportDir, writes: Seq<(Seq<char>, Seq<u8>)>) -> ExportDir
    decreases writes.len(),
{
    if writes.len() == 0 {
        dir
    } else {
        written_after(dir, writes.drop_last()).insert(writes.last().0, writes.last().1)
    }
}

/// Writing leaves every file that `writes` does not name as it was, and gives
/// every file that it names the contents of its last write.
pub proof fn lemma_written_after_overlays(dir: ExportDir, writes: Seq<(Seq<char>, Seq<u8>)>)
    ensures
        written_after(dir, writes) == dir.union_prefer_right(written_after(Map::empty(), writes)),
    decreases writes.len(),
{
    if writes.len() > 0 {
        lemma_written_after_overlays(dir, writes.drop_last());
        lemma_written_after_overlays(Map::empty(), writes.drop_last());
        assert(written_after(dir, writes) =~= dir.union_prefer_right(written_after(Map::empty(), writes)));
    } else {
        assert(written_after(dir, writes) =~= dir.union_prefer_right(written_after(Map::empty(), writes)));
    }
}

/// Repeating the same writes on the directory they produced changes nothing:
/// re-exporting an unchanged workspace leaves byte-identical artifacts.
pub proof fn lemma_rewrite_is_idempotent(dir: ExportDir, writes: Seq<(Seq<char>, Seq<u8>)>)
    ensures
        written_after(written_after(dir, writes), writes) == written_after(dir, writes),
{
    let once = written_after(dir, writes);
    let w = written_after(Map::empty(), writes);
    lemma_written_after_overlays(dir, writes);
    lemma_written_after_overlays(once, writes);
    assert(once.union_prefer_right(w) =~= once);
}

} // verus!
