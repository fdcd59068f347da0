//! Build identifiers of object files, and the install path of the detached debug
//! file that they determine.
use vstd::prelude::*;
use crate::naming::{
    build_id_debug_path, debug_path_for_build_id, fallback_debug_path, fallback_debug_target_path,
    file_name_of, hex_byte, hex_bytes, lemma_debug_suffix_has_file_name,
};

verus! {

/// The notes of the `.note.gnu.build-id` section of an ELF image, in order: for
/// each, its descriptor if it is a GNU build-id note, else `None`. `None` where
/// the image does not parse or has no such section.
pub uninterp spec fn elf_build_id_notes(data: Seq<u8>) -> Option<Seq<Option<Seq<u8>>>>;

/// View of a list of notes.
pub open spec fn notes_view(v: Seq<Option<Vec<u8>>>) -> Seq<Option<Seq<u8>>> {
    v.map_values(|n: Option<Vec<u8>>| match n {
        Some(b) => Some(b@),
        None => None,
    })
}

/// Relies on elf's `ElfBytes::minimal_parse`, `ElfBytes::section_header_by_name`
/// and `ElfBytes::section_data_as_notes`: what they give depends on the bytes
/// alone.
#[verifier::external_body]
fn gnu_build_id_notes(data: &[u8]) -> (r: Option<Vec<Option<Vec<u8>>>>)
    ensures
        match r {
            Some(v) => elf_build_id_notes(data@) == Some(notes_view(v@)),
            None => elf_build_id_notes(data@).is_none(),
        },
{
    let file = elf::ElfBytes::<elf::endian::AnyEndian>::minimal_parse(data).ok()?;
    let shdr = file.section_header_by_name(".note.gnu.build-id").ok()??;
    let notes = file.section_data_as_notes(&shdr).ok()?;
    Some(notes.map(|n| match n {
        elf::note::Note::GnuBuildId(id) => Some(id.0.to_vec()),
        _ => None,
    }).collect())
}

/// The first non-empty build identifier among the notes.
pub open spec fn first_build_id(notes: Seq<Option<Seq<u8>>>) -> Option<Seq<u8>>
    decreases notes.len(),
{
    if notes.len() == 0 {
        None
    } else if notes[0] matches Some(b) && b.len() > 0 {
        notes[0]
    } else {
        first_build_id(notes.drop_first())
    }
}

/// Install path of the debug file of an artifact installed at `target`, given
/// what was read of its build identifier.
pub open spec fn debug_target_spec(notes: Option<Seq<Option<Seq<u8>>>>, target: Seq<char>) -> Seq<
    char,
> {
    match notes {
        Some(ns) => match first_build_id(ns) {
            Some(id) => build_id_debug_path(id),
            None => fallback_debug_path(target),
        },
        None => fallback_debug_path(target),
    }
}

/// The first non-empty build identifier among `notes`.
pub fn first_gnu_build_id(notes: &Vec<Option<Vec<u8>>>) -> (r: Option<&Vec<u8>>)
    ensures
        match r {
            Some(b) => first_build_id(notes_view(notes@)) == Some(b@) && b@.len() > 0,
            None => first_build_id(notes_view(notes@)).is_none(),
        },
{
    let ghost all = notes_view(notes@);
    let mut i: usize = 0;
    assert(all.subrange(0, all.len() as int) =~= all);
    while i < notes.len()
        invariant
            i <= notes@.len(),
            all == notes_view(notes@),
            first_build_id(all) == first_build_id(all.subrange(i as int, all.len() as int)),
        decreases notes@.len() - i,
    {
        let ghost rest = all.subrange(i as int, all.len() as int);
        assert(rest.drop_first() =~= all.subrange(i + 1, all.len() as int));
        match &notes[i] {
            Some(b) => {
                if b.len() > 0 {
                    return Some(b);
                }
            },
            None => {},
        }
        i = i + 1;
    }
    None
}

/// Install path of the debug file of an artifact installed at `target`, given
/// the notes read from its image (`None`: none could be read).
pub fn debug_target_from_notes(notes: &Option<Vec<Option<Vec<u8>>>>, target: &str) -> (r: String)
    ensures
        r@ == debug_target_spec(
            match notes {
                Some(v) => Some(notes_view(v@)),
                None => None,
            },
            target@,
        ),
{
    match notes {
        Some(v) => match first_gnu_build_id(v) {
            Some(id) => debug_path_for_build_id(id.as_slice()),
            None => fallback_debug_target_path(target),
        },
        None => fallback_debug_target_path(target),
    }
}

/// The build-id notes of the ELF image `data`; `None` where the image does not
/// parse or has no build-id section.
pub fn build_id_notes(data: &[u8]) -> (r: Option<Vec<Option<Vec<u8>>>>)
    ensures
        match r {
            Some(v) => elf_build_id_notes(data@) == Some(notes_view(v@)),
            None => elf_build_id_notes(data@).is_none(),
        },
{
    gnu_build_id_notes(data)
}

/// Install path of the debug file of the ELF image `data`, installed at
/// `target`. Where the image yields no build identifier, the path is derived from
/// `target` alone.
pub fn debug_target_path(data: &[u8], target: &str) -> (r: String)
    ensures
        r@ == debug_target_spec(elf_build_id_notes(data@), target@),
{
    let notes = gnu_build_id_notes(data);
    debug_target_from_notes(&notes, target)
}

/// Where no build identifier could be read, the debug file's path is the one
/// derived from the install path alone, the same on every run.
pub proof fn lemma_absent_identity_falls_back(notes: Option<Seq<Option<Seq<u8>>>>, target: Seq<char>)
    requires
        notes is None || first_build_id(notes.unwrap()) is None,
    ensures
        debug_target_spec(notes, target) == fallback_debug_path(target),
{
}

/// Every debug file's install path has a file name.
pub proof fn lemma_debug_target_has_file_name(notes: Option<Seq<Option<Seq<u8>>>>, target: Seq<char>)
    ensures
        file_name_of(debug_target_spec(notes, target)) is Some,
{
    let rel = if target.len() > 0 && target[0] == '/' {
        target.drop_first()
    } else {
        target
    };
    lemma_debug_suffix_has_file_name("usr/lib/debug/"@ + rel);
    if notes is Some && first_build_id(notes.unwrap()) is Some {
        let id = first_build_id(notes.unwrap()).unwrap();
        let pre = "usr/lib/debug/.build-id/"@ + hex_byte(id[0]) + seq!['/'] + hex_bytes(id.drop_first());
        lemma_debug_suffix_has_file_name(pre);
    }
}

} // verus!
