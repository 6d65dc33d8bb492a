use vstd::prelude::*;

verus! {

/// Alignment of text relative to a rectangle
#[derive(Clone, Copy, Debug, PartialEq, Eq, Structural)]
pub enum Align {
    TopLeft,
    TopCenter,
    TopRight,
    MiddleLeft,
    MiddleCenter,
    MiddleRight,
    BottomLeft,
    BottomCenter,
    BottomRight,
}

/// Where text sits across a rectangle.
#[derive(Clone, Copy, Debug, PartialEq, Eq, Structural)]
pub enum Horizontal {
    Left,
    Center,
    Right,
}

/// Where text sits down a rectangle.
#[derive(Clone, Copy, Debug, PartialEq, Eq, Structural)]
pub enum Vertical {
    Top,
    Middle,
    Bottom,
}

impl Align {
    pub open spec fn spec_horizontal(self) -> Horizontal {
        match self {
            Align::TopLeft | Align::MiddleLeft | Align::BottomLeft => Horizontal::Left,
            Align::TopCenter | Align::MiddleCenter | Align::BottomCenter => Horizontal::Center,
            Align::TopRight | Align::MiddleRight | Align::BottomRight => Horizontal::Right,
        }
    }

    pub open spec fn spec_vertical(self) -> Vertical {
        match self {
            Align::TopLeft | Align::TopCenter | Align::TopRight => Vertical::Top,
            Align::MiddleLeft | Align::MiddleCenter | Align::MiddleRight => Vertical::Middle,
            Align::BottomLeft | Align::BottomCenter | Align::BottomRight => Vertical::Bottom,
        }
    }

    /// The horizontal part of the alignment.
    pub fn horizontal(self) -> (r: Horizontal)
        ensures
            r == self.spec_horizontal(),
    {
        match self {
            Align::TopLeft | Align::MiddleLeft | Align::BottomLeft => Horizontal::Left,
            Align::TopCenter | Align::MiddleCenter | Align::BottomCenter => Horizontal::Center,
            Align::TopRight | Align::MiddleRight | Align::BottomRight => Horizontal::Right,
        }
    }

    /// The vertical part of the alignment.
    pub fn vertical(self) -> (r: Vertical)
        ensures
            r == self.spec_vertical(),
    {
        match self {
            Align::TopLeft | Align::TopCenter | Align::TopRight => Vertical::Top,
            Align::MiddleLeft | Align::MiddleCenter | Align::MiddleRight => Vertical::Middle,
            Align::BottomLeft | Align::BottomCenter | Align::BottomRight => Vertical::Bottom,
        }
    }
}

/// An alignment is exactly a choice of a horizontal and a vertical position:
/// two alignments with the same parts are the same, and every pair of parts
/// is some alignment.
pub proof fn law_align_is_pair(a: Align, b: Align, h: Horizontal, v: Vertical)
    ensures
        a.spec_horizontal() == b.spec_horizontal() && a.spec_vertical() == b.spec_vertical()
            ==> a == b,
        exists|c: Align| c.spec_horizontal() == h && c.spec_vertical() == v,
{
    let c = match (h, v) {
        (Horizontal::Left, Vertical::Top) => Align::TopLeft,
        (Horizontal::Center, Vertical::Top) => Align::TopCenter,
        (Horizontal::Right, Vertical::Top) => Align::TopRight,
        (Horizontal::Left, Vertical::Middle) => Align::MiddleLeft,
        (Horizontal::Center, Vertical::Middle) => Align::MiddleCenter,
        (Horizontal::Right, Vertical::Middle) => Align::MiddleRight,
        (Horizontal::Left, Vertical::Bottom) => Align::BottomLeft,
        (Horizontal::Center, Vertical::Bottom) => Align::BottomCenter,
        (Horizontal::Right, Vertical::Bottom) => Align::BottomRight,
    };
    assert(c.spec_horizontal() == h && c.spec_vertical() == v);
}

/// The family names of each face that loading font data `data` (a font
/// file or a collection) into a font database yields, face by face in the
/// order the database holds them; no face when the parser accepts none.
pub uninterp spec fn spec_face_families(data: Seq<u8>) -> Seq<Seq<Seq<char>>>;

/// Faces held as lists of family names, by their views.
pub open spec fn faces_view(faces: Seq<Vec<String>>) -> Seq<Seq<Seq<char>>> {
    faces.map_values(|f: Vec<String>| f@.map_values(|s: String| s@))
}

/// A family name by its view.
pub open spec fn family_view(r: Option<String>) -> Option<Seq<char>> {
    match r {
        Some(s) => Some(s@),
        None => None,
    }
}

/// The name a font database answers for "the family just loaded": the
/// first family of its last face, if it holds a face that has one.
pub open spec fn last_face_family(faces: Seq<Seq<Seq<char>>>) -> Option<Seq<char>> {
    if faces.len() == 0 || faces.last().len() == 0 {
        None
    } else {
        Some(faces.last()[0])
    }
}

/// Loads `data` into a fresh `fontdb::Database` with `load_font_data` and
/// lists the family names (`FaceInfo::families`) of every face it then
/// holds, in the database's order. Claimed: the list is the named one for
/// these bytes. Which bytes parse and what names they carry are left to the
/// name.
#[verifier::external_body]
fn face_families(data: &[u8]) -> (r: Vec<Vec<String>>)
    ensures
        faces_view(r@) == spec_face_families(data@),
{
    let mut db = glyphon::fontdb::Database::new();
    db.load_font_data(data.to_vec());
    db.faces().map(|f| f.families.iter().map(|fam| fam.0.clone()).collect()).collect()
}

/// The first family of the last face in `faces`, if there is one.
pub fn pick_last_family(faces: Vec<Vec<String>>) -> (r: Option<String>)
    ensures
        family_view(r) == last_face_family(faces_view(faces@)),
{
    let ghost view = faces_view(faces@);
    let mut faces = faces;
    match faces.pop() {
        None => None,
        Some(last) => {
            assert(view.last() == last@.map_values(|s: String| s@));
            let mut last = last;
            if last.len() == 0 {
                None
            } else {
                Some(last.remove(0))
            }
        },
    }
}

/// The family name a font file is matched by once loaded: the first family
/// of its last face; `None` when the bytes hold no face that has one.
pub fn font_family(data: &[u8]) -> (r: Option<String>)
    ensures
        family_view(r) == last_face_family(spec_face_families(data@)),
{
    pick_last_family(face_families(data))
}

/// The family a font database answers after `data` is loaded into it, when
/// it held faces with the families `loaded` before: the first family of the
/// last face of the whole database.
pub fn family_after_loading(loaded: Vec<Vec<String>>, data: &[u8]) -> (r: Option<String>)
    ensures
        family_view(r) == last_face_family(faces_view(loaded@) + spec_face_families(data@)),
{
    let added = face_families(data);
    if added.len() > 0 {
        proof {
            let all = faces_view(loaded@) + spec_face_families(data@);
            assert(all.last() == faces_view(added@).last());
        }
        pick_last_family(added)
    } else {
        proof {
            assert(faces_view(loaded@) + spec_face_families(data@) =~= faces_view(loaded@));
        }
        pick_last_family(loaded)
    }
}

/// Most text buffers kept for reuse between frames.
pub const MAX_POOLED_BUFFERS: usize = 64;

/// How many of `incoming` buffers a pool holding `pooled` takes back.
pub open spec fn pool_room(pooled: int, incoming: int) -> int {
    if pooled >= MAX_POOLED_BUFFERS {
        0
    } else if incoming < MAX_POOLED_BUFFERS - pooled {
        incoming
    } else {
        MAX_POOLED_BUFFERS - pooled
    }
}

/// Returns used buffers to the pool, in order, while the pool holds fewer
/// than [`MAX_POOLED_BUFFERS`]; the rest are dropped.
pub fn return_to_pool<T>(pool: &mut Vec<T>, used: Vec<T>)
    ensures
        final(pool)@ == old(pool)@ + used@.subrange(0, pool_room(old(pool)@.len() as int, used@.len() as int)),
{
    let ghost start = pool@;
    let ghost items = used@;
    let mut taken: usize = 0;
    for item in it: used
        invariant
            it.index() <= items.len(),
            it.seq() == items,
            taken == pool_room(start.len() as int, it.index() as int),
            pool@ == start + items.subrange(0, taken as int),
    {
        if pool.len() < MAX_POOLED_BUFFERS {
            pool.push(item);
            taken = taken + 1;
        }
        assert(pool@ =~= start + items.subrange(0, taken as int));
    }
}

} // verus!
