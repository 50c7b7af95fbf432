use vstd::prelude::*;
use vstd::string::StringExecFns;
use crate::corner_set::GridCornerAtlas;
use crate::errors::AtlasError;
use crate::geometry::{corner_mask, grid_corner_mask};
use crate::rgba::RgbaImage;

verus! {

/// The kinds of atlas the registry's descriptor distinguishes.
#[derive(Clone, Copy, Debug, PartialEq, Eq, Structural)]
pub enum TileAtlasKind {
    /// A corner-indexed autotile atlas.
    GridCorner,
}

/// A simple tile collection: a named set of whole tiles. Only its name
/// takes part in registry queries.
#[derive(Clone, Debug)]
pub struct GridSimpleAtlas {
    /// The unique name this atlas is registered under.
    pub key: String,
}

impl GridSimpleAtlas {
    /// The atlas's registered name.
    pub fn get_key(&self) -> (r: &str)
        ensures
            r@ == self.key@,
    {
        self.key.as_str()
    }
}

/// A named animation frame sequence. Only its name takes part in registry
/// queries.
#[derive(Clone, Debug)]
pub struct AnimationFrame {
    /// The unique name this atlas is registered under.
    pub key: String,
}

impl AnimationFrame {
    /// The atlas's registered name.
    pub fn get_key(&self) -> (r: &str)
        ensures
            r@ == self.key@,
    {
        self.key.as_str()
    }
}

/// An edge-adjacency atlas. Only its name takes part in registry queries.
#[derive(Clone, Debug)]
pub struct GridEdgeAtlas {
    /// The unique name this atlas is registered under.
    pub key: String,
}

impl GridEdgeAtlas {
    /// The atlas's registered name.
    pub fn get_key(&self) -> (r: &str)
        ensures
            r@ == self.key@,
    {
        self.key.as_str()
    }
}

/// An edge-indexed wang atlas. Only its name takes part in registry
/// queries.
#[derive(Clone, Debug)]
pub struct GridEdgeWang {
    /// The unique name this atlas is registered under.
    pub key: String,
}

impl GridEdgeWang {
    /// The atlas's registered name.
    pub fn get_key(&self) -> (r: &str)
        ensures
            r@ == self.key@,
    {
        self.key.as_str()
    }
}

/// One stored atlas: a closed set of variants. Only the corner-indexed
/// wang variant answers corner queries; the others are typed containers.
#[derive(Clone, Debug)]
pub enum TileAtlasData {
    /// A simple named tile collection.
    SimpleSet(GridSimpleAtlas),
    /// A named animation frame sequence.
    Animation(AnimationFrame),
    /// A corner-indexed autotile atlas in canonical strip form.
    GridCornerWang(GridCornerAtlas),
    /// An edge-adjacency atlas.
    GridEdge(GridEdgeAtlas),
    /// An edge-indexed wang atlas.
    GridEdgeWang(GridEdgeWang),
}

impl TileAtlasData {
    /// The stored atlas's name.
    pub open spec fn spec_name(self) -> Seq<char> {
        match self {
            TileAtlasData::SimpleSet(v) => v.key@,
            TileAtlasData::Animation(v) => v.key@,
            TileAtlasData::GridCornerWang(v) => v.key@,
            TileAtlasData::GridEdge(v) => v.key@,
            TileAtlasData::GridEdgeWang(v) => v.key@,
        }
    }

    /// Sound to store: the variant's own invariant holds.
    pub open spec fn inv(self) -> bool {
        match self {
            TileAtlasData::GridCornerWang(v) => v.wf(),
            _ => true,
        }
    }

    /// The label the descriptor document writes for this variant.
    pub open spec fn spec_kind_label(self) -> Seq<char> {
        match self {
            TileAtlasData::SimpleSet(_) => "SimpleSet"@,
            TileAtlasData::Animation(_) => "Animation"@,
            TileAtlasData::GridCornerWang(_) => "GridCornerWang"@,
            TileAtlasData::GridEdge(_) => "GridEdge"@,
            TileAtlasData::GridEdgeWang(_) => "GridEdgeWang"@,
        }
    }

    /// The stored atlas's name.
    pub fn get_name(&self) -> (r: &str)
        ensures
            r@ == self.spec_name(),
    {
        match self {
            TileAtlasData::SimpleSet(v) => v.get_key(),
            TileAtlasData::Animation(v) => v.get_key(),
            TileAtlasData::GridCornerWang(v) => v.get_key(),
            TileAtlasData::GridEdge(v) => v.get_key(),
            TileAtlasData::GridEdgeWang(v) => v.get_key(),
        }
    }

    /// The label the descriptor document writes for this variant.
    pub fn kind_label(&self) -> (r: &'static str)
        ensures
            r@ == self.spec_kind_label(),
    {
        match self {
            TileAtlasData::SimpleSet(_) => "SimpleSet",
            TileAtlasData::Animation(_) => "Animation",
            TileAtlasData::GridCornerWang(_) => "GridCornerWang",
            TileAtlasData::GridEdge(_) => "GridEdge",
            TileAtlasData::GridEdgeWang(_) => "GridEdgeWang",
        }
    }
}

/// The concurrent map type of the dashmap crate, declared so the registry
/// can hold one and speak of it.
#[verifier::external_type_specification]
#[verifier::external_body]
#[verifier::reject_recursive_types(K)]
#[verifier::reject_recursive_types(V)]
#[verifier::reject_recursive_types(S)]
pub struct ExDashMap<K, V, S>(dashmap::DashMap<K, V, S>);

/// What the registry's concurrent map holds: its entries as a map from
/// the key's characters to the stored atlas.
pub uninterp spec fn dash_contents(m: dashmap::DashMap<String, TileAtlasData>) -> Map<
    Seq<char>,
    TileAtlasData,
>;

/// Relies on dashmap::DashMap::new: creates an empty map.
#[verifier::external_body]
fn dash_new() -> (m: dashmap::DashMap<String, TileAtlasData>)
    ensures
        forall|k: Seq<char>| !dash_contents(m).dom().contains(k),
{
    dashmap::DashMap::new()
}

/// Relies on dashmap::DashMap::get: looks the key up and hands back a
/// clone of the stored value, if one is present.
#[verifier::external_body]
fn dash_get(m: &dashmap::DashMap<String, TileAtlasData>, key: &str) -> (r: Option<TileAtlasData>)
    ensures
        r == if dash_contents(*m).dom().contains(key@) {
            Some(dash_contents(*m)[key@])
        } else {
            None::<TileAtlasData>
        },
{
    m.get(key).map(|v| v.value().clone())
}

/// Relies on dashmap::DashMap::insert: maps the key to the value and
/// returns the value previously stored under it, if any.
#[verifier::external_body]
fn dash_insert(
    m: &mut dashmap::DashMap<String, TileAtlasData>,
    key: &str,
    value: TileAtlasData,
) -> (prev: Option<TileAtlasData>)
    ensures
        dash_contents(*final(m)) == dash_contents(*old(m)).insert(key@, value),
        prev == if dash_contents(*old(m)).dom().contains(key@) {
            Some(dash_contents(*old(m))[key@])
        } else {
            None::<TileAtlasData>
        },
{
    m.insert(key.to_string(), value)
}

/// The digit character for `d` in 0..10.
pub open spec fn digit_char(d: int) -> char {
    if d == 0 {
        '0'
    } else if d == 1 {
        '1'
    } else if d == 2 {
        '2'
    } else if d == 3 {
        '3'
    } else if d == 4 {
        '4'
    } else if d == 5 {
        '5'
    } else if d == 6 {
        '6'
    } else if d == 7 {
        '7'
    } else if d == 8 {
        '8'
    } else {
        '9'
    }
}

/// The decimal digits of `n`, most significant first.
pub open spec fn dec_rep(n: int) -> Seq<char>
    decreases n,
{
    if n < 10 {
        seq![digit_char(n)]
    } else {
        dec_rep(n / 10).push(digit_char(n % 10))
    }
}

/// Renders `n` in decimal.
pub fn u32_to_string(n: u32) -> (s: String)
    ensures
        s@ == dec_rep(n as int),
    decreases n,
{
    let d = n % 10;
    let ds: &str = if d == 0 {
        "0"
    } else if d == 1 {
        "1"
    } else if d == 2 {
        "2"
    } else if d == 3 {
        "3"
    } else if d == 4 {
        "4"
    } else if d == 5 {
        "5"
    } else if d == 6 {
        "6"
    } else if d == 7 {
        "7"
    } else if d == 8 {
        "8"
    } else {
        "9"
    };
    proof {
        reveal_strlit("0");
        reveal_strlit("1");
        reveal_strlit("2");
        reveal_strlit("3");
        reveal_strlit("4");
        reveal_strlit("5");
        reveal_strlit("6");
        reveal_strlit("7");
        reveal_strlit("8");
        reveal_strlit("9");
        assert(ds@ =~= seq![digit_char(d as int)]);
    }
    if n < 10 {
        let s = ds.to_owned();
        proof {
            assert(s@ =~= dec_rep(n as int));
        }
        s
    } else {
        let mut s = u32_to_string(n / 10);
        s.append(ds);
        proof {
            assert(s@ =~= dec_rep(n as int));
        }
        s
    }
}

/// The descriptor block for one entry: its name and kind, 4-space
/// indented, closed with a comma unless it is the last entry. The name
/// is embedded verbatim.
pub open spec fn spec_entry_text(name: Seq<char>, kind: Seq<char>, last: bool) -> Seq<char> {
    "        {\n            \"name\": \""@ + name + "\",\n            \"kind\": \""@ + kind
        + "\"\n        }"@ + (if last {
        "\n"@
    } else {
        ",\n"@
    })
}

/// The concatenated descriptor blocks of the first `upto` entries, in
/// insertion order.
pub open spec fn spec_entries_prefix(
    entries: Map<Seq<char>, TileAtlasData>,
    names: Seq<Seq<char>>,
    upto: int,
) -> Seq<char>
    decreases upto,
{
    if upto <= 0 {
        Seq::empty()
    } else {
        spec_entries_prefix(entries, names, upto - 1) + spec_entry_text(
            names[upto - 1],
            entries[names[upto - 1]].spec_kind_label(),
            upto - 1 == names.len() - 1,
        )
    }
}

/// The named-atlas registry: a concurrent map from atlas name to stored
/// atlas, the global target cell size, and the workspace location its
/// descriptor belongs to. Mutations change only the in-memory state; a
/// caller persists the rendered descriptor afterwards, so a failed write
/// leaves memory and disk diverged ("state changed, durability
/// uncertain").
#[derive(Debug)]
pub struct FileSystemTiles {
    workspace: String,
    target_w: u32,
    target_h: u32,
    atlas: dashmap::DashMap<String, TileAtlasData>,
    names: Vec<String>,
}

impl FileSystemTiles {
    /// The stored atlases, by name.
    pub closed spec fn spec_entries(self) -> Map<Seq<char>, TileAtlasData> {
        dash_contents(self.atlas)
    }

    /// The workspace location the registry is bound to.
    pub closed spec fn spec_workspace(self) -> Seq<char> {
        self.workspace@
    }

    /// The global target cell width.
    pub closed spec fn spec_target_w(self) -> u32 {
        self.target_w
    }

    /// The global target cell height.
    pub closed spec fn spec_target_h(self) -> u32 {
        self.target_h
    }

    /// The stored atlas names in insertion order.
    pub closed spec fn spec_names(self) -> Seq<Seq<char>> {
        self.names@.map_values(|s: String| s@)
    }

    /// Well-formed: positive target sizes, every stored atlas sound, and
    /// the name list enumerating the stored names exactly once, in
    /// insertion order.
    pub closed spec fn wf(self) -> bool {
        &&& self.target_w > 0
        &&& self.target_h > 0
        &&& forall|i: int, j: int|
            0 <= i < j < self.names@.len() ==> self.names@[i]@ != self.names@[j]@
        &&& forall|i: int|
            0 <= i < self.names@.len() ==> dash_contents(self.atlas).dom().contains(
                #[trigger] self.names@[i]@,
            )
        &&& forall|k: Seq<char>|
            #[trigger] dash_contents(self.atlas).dom().contains(k) ==> exists|i: int|
                0 <= i < self.names@.len() && self.names@[i]@ == k
        &&& forall|k: Seq<char>|
            dash_contents(self.atlas).dom().contains(k) ==> (#[trigger] dash_contents(
                self.atlas,
            )[k]).inv()
    }

    /// Creates an empty registry bound to a workspace location, with the
    /// default 32-by-32 target cell size.
    pub fn new(workspace: &str) -> (r: FileSystemTiles)
        ensures
            r.wf(),
            r.spec_workspace() == workspace@,
            r.spec_target_w() == 32,
            r.spec_target_h() == 32,
            r.spec_entries() == Map::<Seq<char>, TileAtlasData>::empty(),
            r.spec_names() == Seq::<Seq<char>>::empty(),
    {
        let r = FileSystemTiles {
            workspace: workspace.to_owned(),
            target_w: 32,
            target_h: 32,
            atlas: dash_new(),
            names: Vec::new(),
        };
        proof {
            assert(r.spec_names() =~= Seq::<Seq<char>>::empty());
            assert(r.spec_entries() =~= Map::<Seq<char>, TileAtlasData>::empty());
        }
        r
    }

    /// The global target cell size.
    pub fn get_target_size(&self) -> (r: (u32, u32))
        ensures
            r.0 == self.spec_target_w(),
            r.1 == self.spec_target_h(),
    {
        (self.target_w, self.target_h)
    }

    /// Sets the global target cell size. A zero width or height is
    /// rejected with `InvalidInput` and leaves the registry unchanged.
    pub fn set_target_size(&mut self, width: u32, height: u32) -> (r: Result<(), AtlasError>)
        requires
            old(self).wf(),
        ensures
            final(self).wf(),
            final(self).spec_workspace() == old(self).spec_workspace(),
            final(self).spec_entries() == old(self).spec_entries(),
            final(self).spec_names() == old(self).spec_names(),
            match r {
                Ok(()) => {
                    &&& width > 0
                    &&& height > 0
                    &&& final(self).spec_target_w() == width
                    &&& final(self).spec_target_h() == height
                },
                Err(e) => {
                    &&& e == AtlasError::InvalidInput
                    &&& (width == 0 || height == 0)
                    &&& final(self).spec_target_w() == old(self).spec_target_w()
                    &&& final(self).spec_target_h() == old(self).spec_target_h()
                },
            },
    {
        if width == 0 || height == 0 {
            return Err(AtlasError::InvalidInput);
        }
        self.target_w = width;
        self.target_h = height;
        proof {
            assert forall|k: Seq<char>|
                #[trigger] dash_contents(self.atlas).dom().contains(k) implies exists|i: int|
                0 <= i < self.names@.len() && self.names@[i]@ == k by {
                assert(dash_contents(old(self).atlas).dom().contains(k));
                let i = choose|i: int|
                    0 <= i < old(self).names@.len() && old(self).names@[i]@ == k;
                assert(0 <= i < self.names@.len() && self.names@[i]@ == k);
            }
        }
        Ok(())
    }

    /// Stores `data` under `file`, replacing any previous atlas of that
    /// name (last write wins). A caller persists the descriptor afterwards.
    pub fn insert_atlas(&mut self, file: &str, data: TileAtlasData) -> (r: Result<
        (),
        AtlasError,
    >)
        requires
            old(self).wf(),
            data.inv(),
        ensures
            final(self).wf(),
            r is Ok,
            final(self).spec_entries() == old(self).spec_entries().insert(file@, data),
            final(self).spec_names() == if old(self).spec_entries().dom().contains(file@) {
                old(self).spec_names()
            } else {
                old(self).spec_names().push(file@)
            },
            final(self).spec_workspace() == old(self).spec_workspace(),
            final(self).spec_target_w() == old(self).spec_target_w(),
            final(self).spec_target_h() == old(self).spec_target_h(),
    {
        let prev = dash_insert(&mut self.atlas, file, data);
        match prev {
            Some(_) => {
                proof {
                    assert(self.spec_names() =~= old(self).spec_names());
                    assert forall|k: Seq<char>|
                        #[trigger] dash_contents(self.atlas).dom().contains(k) implies exists|
                        i: int,
                    |
                        0 <= i < self.names@.len() && self.names@[i]@ == k by {
                        if k != file@ {
                            assert(dash_contents(old(self).atlas).dom().contains(k));
                        } else {
                            assert(dash_contents(old(self).atlas).dom().contains(k));
                        }
                    }
                }
            },
            None => {
                self.names.push(file.to_owned());
                proof {
                    assert(self.spec_names() =~= old(self).spec_names().push(file@));
                    assert forall|k: Seq<char>|
                        #[trigger] dash_contents(self.atlas).dom().contains(k) implies exists|
                        i: int,
                    |
                        0 <= i < self.names@.len() && self.names@[i]@ == k by {
                        if k == file@ {
                            assert(self.names@[self.names@.len() - 1]@ == file@);
                        } else {
                            assert(dash_contents(old(self).atlas).dom().contains(k));
                            let i = choose|i: int|
                                0 <= i < old(self).names@.len() && old(self).names@[i]@ == k;
                            assert(self.names@[i]@ == k);
                        }
                    }
                }
            },
        }
        Ok(())
    }

    /// Looks up a stored atlas by name and returns a copy of it; an
    /// absent name yields nothing, not an error.
    pub fn get_atlas(&self, name: &str, _mask: u8) -> (r: Option<TileAtlasData>)
        ensures
            r == if self.spec_entries().dom().contains(name@) {
                Some(self.spec_entries()[name@])
            } else {
                None::<TileAtlasData>
            },
    {
        dash_get(&self.atlas, name)
    }

    /// Looks up a stored atlas by name for side queries; an absent name
    /// yields nothing, not an error.
    pub fn get_side_atlas(&self, file: &str, _mask: u8) -> (r: Option<TileAtlasData>)
        ensures
            r == if self.spec_entries().dom().contains(file@) {
                Some(self.spec_entries()[file@])
            } else {
                None::<TileAtlasData>
            },
    {
        dash_get(&self.atlas, file)
    }

    /// Computes the corner mask of the four diagonal-neighbor flags and
    /// answers from the named atlas: the mask's composite cell when a
    /// corner-indexed wang atlas is stored under the name, nothing when
    /// the name is absent or another variant is stored.
    pub fn get_corner(&self, name: &str, lu: bool, ru: bool, ld: bool, rd: bool, _index: u8) -> (r:
        Option<RgbaImage>)
        requires
            self.wf(),
        ensures
            match r {
                Some(img) => {
                    &&& self.spec_entries().dom().contains(name@)
                    &&& self.spec_entries()[name@] matches TileAtlasData::GridCornerWang(atlas)
                        && atlas.is_slot_of(corner_mask(lu, ru, ld, rd), img)
                },
                None => !self.spec_entries().dom().contains(name@) || !(self.spec_entries()[name@]
                    is GridCornerWang),
            },
    {
        let mask = grid_corner_mask(lu, ru, ld, rd);
        match dash_get(&self.atlas, name) {
            None => None,
            Some(TileAtlasData::GridCornerWang(v)) => Some(v.get_by_mask(mask)),
            Some(_) => None,
        }
    }

    /// Renders the registry's descriptor document: pretty-printed with
    /// 4-space indentation, the global target cell size first, then every
    /// entry by name and kind in insertion order. Atlas names are embedded
    /// verbatim. A caller rewrites the workspace descriptor wholesale with
    /// this text after every mutation.
    pub fn descriptor(&self) -> (s: String)
        requires
            self.wf(),
        ensures
            s@ == self.spec_descriptor(),
    {
        let mut s = String::new();
        s.append("{\n    \"target_w\": ");
        let tw = u32_to_string(self.target_w);
        s.append(tw.as_str());
        s.append(",\n    \"target_h\": ");
        let th = u32_to_string(self.target_h);
        s.append(th.as_str());
        s.append(",\n    \"atlas\": [");
        let n = self.names.len();
        if n == 0 {
            s.append("]\n}\n");
            proof {
                assert(s@ =~= self.spec_descriptor());
            }
            return s;
        }
        s.append("\n");
        let ghost head = s@;
        let mut i: usize = 0;
        while i < n
            invariant
                n == self.names@.len(),
                i <= n,
                self.wf(),
                s@ == head + spec_entries_prefix(self.spec_entries(), self.spec_names(), i as int),
            decreases n - i,
        {
            let name = &self.names[i];
            let data = match dash_get(&self.atlas, name.as_str()) {
                Some(d) => d,
                None => {
                    proof {
                        assert(false);
                    }
                    vstd::pervasive::unreached()
                },
            };
            let kind = data.kind_label();
            s.append("        {\n            \"name\": \"");
            s.append(name.as_str());
            s.append("\",\n            \"kind\": \"");
            s.append(kind);
            s.append("\"\n        }");
            if i == n - 1 {
                s.append("\n");
            } else {
                s.append(",\n");
            }
            proof {
                assert(s@ =~= head + spec_entries_prefix(
                    self.spec_entries(),
                    self.spec_names(),
                    i + 1,
                ));
            }
            i = i + 1;
        }
        s.append("    ]\n}\n");
        proof {
            assert(s@ =~= self.spec_descriptor());
        }
        s
    }

    /// The registry's descriptor document: the global target cell size and
    /// every entry's name and kind, in insertion order.
    pub open spec fn spec_descriptor(self) -> Seq<char> {
        "{\n    \"target_w\": "@ + dec_rep(self.spec_target_w() as int) + ",\n    \"target_h\": "@
            + dec_rep(self.spec_target_h() as int) + ",\n    \"atlas\": ["@ + (
        if self.spec_names().len() == 0 {
            "]\n}\n"@
        } else {
            "\n"@ + spec_entries_prefix(
                self.spec_entries(),
                self.spec_names(),
                self.spec_names().len() as int,
            ) + "    ]\n}\n"@
        })
    }
}

impl Default for FileSystemTiles {
    /// An empty registry with no workspace location and the default
    /// 32-by-32 target cell size.
    fn default() -> (r: FileSystemTiles)
        ensures
            r.wf(),
            r.spec_workspace() == Seq::<char>::empty(),
            r.spec_target_w() == 32,
            r.spec_target_h() == 32,
            r.spec_entries() == Map::<Seq<char>, TileAtlasData>::empty(),
            r.spec_names() == Seq::<Seq<char>>::empty(),
    {
        let r = FileSystemTiles::new("");
        proof {
            reveal_strlit("");
            assert(r.spec_workspace() =~= Seq::<char>::empty());
        }
        r
    }
}

} // verus!
