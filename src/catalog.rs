//! The ordered catalog of font faces, and the stable index of a face in it.
use vstd::prelude::*;
use cosmic_text::fontdb::ID;
use cosmic_text::FontSystem;

verus! {

#[verifier::external_type_specification]
#[verifier::external_body]
pub struct ExFaceId(ID);

#[verifier::external_type_specification]
#[verifier::external_body]
pub struct ExFontSystem(FontSystem);

/// The ids of the faces in a font system's database, in the order in which
/// `fontdb::Database::faces` lists them.
pub uninterp spec fn db_faces(fs: FontSystem) -> Seq<ID>;

/// Whether every slot of the store's slot map holds a face, none having been
/// freed by a removal. A slot map in that state adds new entries at the end.
pub uninterp spec fn db_slots_full(fs: FontSystem) -> bool;

/// Relies on `fontdb::Database::len`: the number of faces in the database,
/// which is the number that `Database::faces` lists.
#[verifier::external_body]
fn face_count(fs: &FontSystem) -> (r: usize)
    ensures
        r == db_faces(*fs).len(),
{
    fs.db().len()
}

/// Relies on `fontdb::Database::faces`: the id of the face at position `i`
/// of its listing (each `FaceInfo` holds its own id).
#[verifier::external_body]
fn face_id_at(fs: &FontSystem, i: usize) -> (r: ID)
    requires
        i < db_faces(*fs).len(),
    ensures
        r == db_faces(*fs)[i as int],
{
    fs.db().faces().nth(i).unwrap().id
}

/// The number of faces that fontdb parses from a font file's bytes.
pub uninterp spec fn faces_in_data(data: Seq<u8>) -> nat;

/// Relies on `fontdb::Database::load_font_data`, reached through
/// `FontSystem::db_mut`: it inserts one face for each face of `data` that it
/// can parse, which depends on the bytes alone, and skips the others. It
/// removes nothing. Each insertion goes through `SlotMap::insert_with_key`,
/// which pushes a new slot at the end when no slot is free, and each face's
/// id is its slot key, so the ids listed are distinct.
#[verifier::external_body]
fn load_font_data(fs: &mut FontSystem, data: Vec<u8>)
    ensures
        db_faces(*final(fs)).len() == db_faces(*old(fs)).len() + faces_in_data(data@),
        db_faces(*final(fs)).no_duplicates(),
        db_slots_full(*old(fs)) ==> db_slots_full(*final(fs)),
        db_slots_full(*old(fs)) ==> db_faces(*final(fs)).subrange(
            0,
            db_faces(*old(fs)).len() as int,
        ) == db_faces(*old(fs)),
{
    fs.db_mut().load_font_data(data)
}

/// Relies on `FontSystem::new_with_locale_and_db` given an empty
/// `fontdb::Database::new()`: the system holds exactly that database, with
/// no face and no slot.
#[verifier::external_body]
fn new_font_system(locale: String) -> (r: FontSystem)
    ensures
        db_faces(r).len() == 0,
        db_slots_full(r),
{
    FontSystem::new_with_locale_and_db(locale, cosmic_text::fontdb::Database::new())
}

/// The faces listed from position `before` on: those a load added to a listing
/// that held `before` faces.
pub open spec fn faces_from(faces: Seq<ID>, before: nat) -> Seq<ID> {
    if before <= faces.len() {
        faces.subrange(before as int, faces.len() as int)
    } else {
        Seq::empty()
    }
}

/// Relies on the `PartialEq` that `fontdb::ID` derives: it compares the
/// slot index and version that make up the key, so two ids compare equal
/// exactly when they are the same value.
#[verifier::external_body]
fn same_face(a: &ID, b: &ID) -> (r: bool)
    ensures
        r == (*a == *b),
{
    *a == *b
}

/// Position of the first occurrence of `id` in `faces`, or -1 when it is absent.
pub open spec fn face_index(faces: Seq<ID>, id: ID) -> int
    decreases faces.len(),
{
    if faces.len() == 0 {
        -1
    } else if face_index(faces.drop_last(), id) >= 0 {
        face_index(faces.drop_last(), id)
    } else if faces.last() == id {
        faces.len() - 1
    } else {
        -1
    }
}

/// The faces registered with the font store, in the order in which they were loaded.
pub struct FontCatalog {
    faces: Vec<ID>,
}

impl View for FontCatalog {
    type V = Seq<ID>;

    closed spec fn view(&self) -> Seq<ID> {
        self.faces@
    }
}

impl FontCatalog {
    /// Every index fits the record's 32-bit signed field.
    pub open spec fn wf(&self) -> bool {
        self@.len() <= i32::MAX
    }

    pub fn new() -> (r: FontCatalog)
        ensures
            r@ == Seq::<ID>::empty(),
            r.wf(),
    {
        FontCatalog { faces: Vec::new() }
    }

    /// Appends a face after those already registered.
    pub fn push_face(&mut self, id: ID)
        requires
            old(self)@.len() < i32::MAX,
        ensures
            final(self)@ == old(self)@.push(id),
            final(self).wf(),
    {
        self.faces.push(id);
    }

    /// Loads one font file's bytes into the font store, then appends, in the
    /// store's order, the faces listed after those it held before. Returns
    /// false, and leaves the catalog as it was, where the faces would not all
    /// fit a 32-bit signed index.
    pub fn register_font_data(&mut self, fs: &mut FontSystem, data: Vec<u8>) -> (r: bool)
        requires
            old(self).wf(),
        ensures
            final(self).wf(),
            r == (old(self)@.len() + faces_from(
                db_faces(*final(fs)),
                db_faces(*old(fs)).len(),
            ).len() <= i32::MAX),
            r ==> final(self)@ == old(self)@ + faces_from(
                db_faces(*final(fs)),
                db_faces(*old(fs)).len(),
            ),
            !r ==> final(self)@ == old(self)@,
            db_faces(*final(fs)).len() == db_faces(*old(fs)).len() + faces_in_data(data@),
            db_faces(*final(fs)).no_duplicates(),
            db_slots_full(*old(fs)) ==> db_slots_full(*final(fs)),
            db_slots_full(*old(fs)) ==> db_faces(*final(fs)).subrange(
                0,
                db_faces(*old(fs)).len() as int,
            ) == db_faces(*old(fs)),
    {
        let before = face_count(fs);
        load_font_data(fs, data);
        let after = face_count(fs);
        let ghost added = faces_from(db_faces(*fs), before as nat);
        let added_count: usize = if before <= after {
            after - before
        } else {
            0
        };
        if added_count > i32::MAX as usize - self.faces.len() {
            return false;
        }
        if after < before {
            return true;
        }
        let ghost start = self@;
        let mut i: usize = before;
        while i < after
            invariant
                before <= i <= after,
                after == db_faces(*fs).len(),
                added == faces_from(db_faces(*fs), before as nat),
                start.len() + added.len() <= i32::MAX,
                self@ == start + added.subrange(0, i - before),
            decreases after - i,
        {
            self.faces.push(face_id_at(fs, i));
            proof {
                assert(added.subrange(0, i + 1 - before) =~= added.subrange(0, i - before).push(
                    db_faces(*fs)[i as int],
                ));
            }
            i = i + 1;
        }
        assert(added.subrange(0, after - before) =~= added);
        true
    }

    pub fn len(&self) -> (r: usize)
        ensures
            r == self@.len(),
    {
        self.faces.len()
    }

    /// The stable index of a face: its position in load order, or -1 for a
    /// face that the catalog does not hold.
    pub fn index_of(&self, id: &ID) -> (r: i32)
        requires
            self.wf(),
        ensures
            r == face_index(self@, *id),
    {
        let mut i: usize = 0;
        while i < self.faces.len()
            invariant
                self.wf(),
                0 <= i <= self@.len(),
                face_index(self@.subrange(0, i as int), *id) == -1,
            decreases self@.len() - i,
        {
            let ghost p = self@.subrange(0, i as int);
            let ghost q = self@.subrange(0, i + 1);
            proof {
                assert(q.drop_last() =~= p);
            }
            if same_face(&self.faces[i], id) {
                proof {
                    lemma_index_of_prefix(self@, *id, i + 1);
                }
                return i as i32;
            }
            i = i + 1;
        }
        proof {
            assert(self@.subrange(0, i as int) =~= self@);
        }
        -1
    }
}

/// Once a face has been found in a prefix, extending the prefix keeps its index.
proof fn lemma_index_of_prefix(faces: Seq<ID>, id: ID, k: int)
    requires
        0 <= k <= faces.len(),
        face_index(faces.subrange(0, k), id) >= 0,
    ensures
        face_index(faces, id) == face_index(faces.subrange(0, k), id),
    decreases faces.len() - k,
{
    if k < faces.len() {
        assert(faces.subrange(0, k + 1).drop_last() =~= faces.subrange(0, k));
        lemma_index_of_prefix(faces, id, k + 1);
    } else {
        assert(faces.subrange(0, k) =~= faces);
    }
}

/// Total number of faces in the fonts `fonts`.
pub open spec fn total_faces(fonts: Seq<Vec<u8>>) -> nat
    decreases fonts.len(),
{
    if fonts.len() == 0 {
        0
    } else {
        total_faces(fonts.drop_last()) + faces_in_data(fonts.last()@)
    }
}

/// A font system for locale `en-US` whose store holds the faces of `fonts`,
/// loaded in order, and the catalog of those faces: exactly the store's
/// faces, in the order in which they were loaded, each once. `None` where
/// they would not all fit a 32-bit signed index.
pub fn build_font_system(fonts: &Vec<Vec<u8>>) -> (r: Option<(FontSystem, FontCatalog)>)
    ensures
        r is Some <==> total_faces(fonts@) <= i32::MAX,
        r matches Some((fs, catalog)) ==> {
            &&& catalog.wf()
            &&& catalog@ == db_faces(fs)
            &&& catalog@.no_duplicates()
            &&& catalog@.len() == total_faces(fonts@)
        },
{
    let mut fs = new_font_system(String::from_str("en-US"));
    let mut catalog = FontCatalog::new();
    assert(catalog@ =~= db_faces(fs));
    let mut i: usize = 0;
    while i < fonts.len()
        invariant
            0 <= i <= fonts@.len(),
            catalog.wf(),
            catalog@ == db_faces(fs),
            catalog@.no_duplicates(),
            db_slots_full(fs),
            catalog@.len() == total_faces(fonts@.subrange(0, i as int)),
        decreases fonts@.len() - i,
    {
        let data = fonts[i].clone();
        assert(fonts@.subrange(0, i + 1).drop_last() =~= fonts@.subrange(0, i as int));
        if !catalog.register_font_data(&mut fs, data) {
            proof {
                lemma_total_faces_prefix(fonts@, i + 1);
            }
            return None;
        }
        assert(catalog@ =~= db_faces(fs));
        i = i + 1;
    }
    assert(fonts@.subrange(0, i as int) =~= fonts@);
    Some((fs, catalog))
}

/// The faces of a prefix of the fonts are no more than those of all of them.
proof fn lemma_total_faces_prefix(fonts: Seq<Vec<u8>>, k: int)
    requires
        0 <= k <= fonts.len(),
    ensures
        total_faces(fonts.subrange(0, k)) <= total_faces(fonts),
    decreases fonts.len() - k,
{
    if k < fonts.len() {
        assert(fonts.subrange(0, k + 1).drop_last() =~= fonts.subrange(0, k));
        lemma_total_faces_prefix(fonts, k + 1);
    } else {
        assert(fonts.subrange(0, k) =~= fonts);
    }
}

} // verus!
