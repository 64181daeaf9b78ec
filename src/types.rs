//! The driver's state: the window-level flags and the script store, and
//! the names of the loaded textures and fonts.

use crate::text::bytes_eq;
use std::collections::HashMap;
use vstd::prelude::*;

verus! {

broadcast use vstd::std_specs::hash::group_hash_axioms;

/// A stored drawing program.
pub type Script = Vec<u8>;

/// Window-level state and the scripts, by id.
pub struct WindowData {
    pub window_size: (i32, i32),
    pub frame_size: (i32, i32),
    pub keep_going: bool,
    pub redraw: bool,
    pub input_flags: u32,
    pub scripts: HashMap<u32, Script>,
    pub root_script: i32,
}

/// The set of byte strings that `keys` holds.
pub open spec fn key_set(keys: Seq<Vec<u8>>) -> Set<Seq<u8>> {
    Set::new(|k: Seq<u8>| exists|i: int| 0 <= i < keys.len() && keys[i]@ == k)
}

/// No byte string occurs twice in `keys`.
pub open spec fn keys_unique(keys: Seq<Vec<u8>>) -> bool {
    forall|i: int, j: int| 0 <= i < keys.len() && 0 <= j < keys.len() && i != j ==> keys[i]@ != keys[j]@
}

/// The names of the textures and of the fonts that have been loaded.
pub struct Context {
    pub textures: Vec<Vec<u8>>,
    pub fonts: Vec<Vec<u8>>,
}

impl WindowData {
    /// The scripts, by id, as byte sequences.
    pub open spec fn script_map(&self) -> Map<u32, Seq<u8>> {
        self.scripts@.map_values(|v: Vec<u8>| v@)
    }

    /// Stores `script` under `id`, replacing what was there.
    pub fn put_script(&mut self, id: u32, script: Script)
        ensures
            final(self).script_map() == old(self).script_map().insert(id, script@),
            final(self).root_script == old(self).root_script,
            final(self).input_flags == old(self).input_flags,
            final(self).keep_going == old(self).keep_going,
            final(self).redraw == old(self).redraw,
            final(self).window_size == old(self).window_size,
            final(self).frame_size == old(self).frame_size,
    {
        self.scripts.insert(id, script);
        assert(self.script_map() =~= old(self).script_map().insert(id, script@));
    }

    /// The script stored under `id`, if any.
    pub fn get_script(&self, id: u32) -> (r: Option<&Script>)
        ensures
            match r {
                Some(s) => self.script_map().contains_key(id) && s@ == self.script_map()[id],
                None => !self.script_map().contains_key(id),
            },
    {
        self.scripts.get(&id)
    }

    /// Removes the script stored under `id`, if any.
    pub fn delete_script(&mut self, id: u32)
        ensures
            final(self).script_map() == old(self).script_map().remove(id),
            final(self).root_script == old(self).root_script,
            final(self).input_flags == old(self).input_flags,
            final(self).keep_going == old(self).keep_going,
            final(self).redraw == old(self).redraw,
            final(self).window_size == old(self).window_size,
            final(self).frame_size == old(self).frame_size,
    {
        let _ = self.scripts.remove(&id);
        assert(self.script_map() =~= old(self).script_map().remove(id));
    }
}

/// The state a driver starts in: running, every input category enabled,
/// no script, no root.
pub fn setup_window_data(width: i32, height: i32) -> (r: WindowData)
    ensures
        r.keep_going,
        !r.redraw,
        r.input_flags == 0xFFFF,
        r.root_script == -1,
        r.script_map() == Map::<u32, Seq<u8>>::empty(),
        r.window_size == (width, height),
        r.frame_size == (0i32, 0i32),
{
    let r = WindowData {
        window_size: (width, height),
        frame_size: (0, 0),
        keep_going: true,
        redraw: false,
        input_flags: 0xFFFF,
        scripts: HashMap::new(),
        root_script: -1,
    };
    assert(r.script_map() =~= Map::<u32, Seq<u8>>::empty());
    r
}

/// The position of `k` in `keys`, if it is there.
pub fn find_key(keys: &Vec<Vec<u8>>, k: &[u8]) -> (r: Option<usize>)
    ensures
        match r {
            Some(i) => i < keys@.len() && keys@[i as int]@ == k@,
            None => !key_set(keys@).contains(k@),
        },
{
    let mut i: usize = 0;
    while i < keys.len()
        invariant
            i <= keys@.len(),
            forall|j: int| 0 <= j < i ==> keys@[j]@ != k@,
        decreases keys@.len() - i,
    {
        if bytes_eq(keys[i].as_slice(), k) {
            return Some(i);
        }
        i = i + 1;
    }
    None
}

impl Context {
    /// A context with no texture and no font.
    pub fn new() -> (r: Context)
        ensures
            r.wf(),
            r.texture_keys() == Set::<Seq<u8>>::empty(),
            r.font_names() == Set::<Seq<u8>>::empty(),
    {
        let r = Context { textures: Vec::new(), fonts: Vec::new() };
        assert(r.texture_keys() =~= Set::<Seq<u8>>::empty());
        assert(r.font_names() =~= Set::<Seq<u8>>::empty());
        r
    }

    /// Each name occurs once.
    pub open spec fn wf(&self) -> bool {
        keys_unique(self.textures@) && keys_unique(self.fonts@)
    }

    /// The keys of the loaded textures.
    pub open spec fn texture_keys(&self) -> Set<Seq<u8>> {
        key_set(self.textures@)
    }

    /// The names of the loaded fonts.
    pub open spec fn font_names(&self) -> Set<Seq<u8>> {
        key_set(self.fonts@)
    }

    /// Records that a texture is loaded under `key`.
    pub fn put_tx(&mut self, key: Vec<u8>)
        requires
            old(self).wf(),
        ensures
            final(self).wf(),
            final(self).texture_keys() == old(self).texture_keys().insert(key@),
            final(self).font_names() == old(self).font_names(),
    {
        match find_key(&self.textures, key.as_slice()) {
            Some(_) => {
                assert(self.texture_keys().contains(key@));
                assert(self.texture_keys() =~= old(self).texture_keys().insert(key@));
            },
            None => {
                let ghost k = key@;
                self.textures.push(key);
                assert(self.texture_keys() =~= old(self).texture_keys().insert(k)) by {
                    assert forall|x: Seq<u8>| #[trigger]
                        self.texture_keys().contains(x) implies old(self).texture_keys().insert(
                        k,
                    ).contains(x) by {
                        let i = choose|i: int| 0 <= i < self.textures@.len() && self.textures@[i]@ == x;
                        if i < old(self).textures@.len() {
                            assert(old(self).textures@[i]@ == x);
                        }
                    }
                    assert forall|x: Seq<u8>| #[trigger]
                        old(self).texture_keys().insert(k).contains(x) implies self.texture_keys().contains(x) by {
                        if x == k {
                            assert(self.textures@[old(self).textures@.len() as int]@ == x);
                        } else {
                            let i = choose|i: int| 0 <= i < old(self).textures@.len() && old(self).textures@[i]@ == x;
                            assert(self.textures@[i]@ == x);
                        }
                    }
                }
            },
        }
    }

    /// Forgets the texture under `key`; whether it was loaded.
    pub fn free_tx(&mut self, key: &[u8]) -> (r: bool)
        requires
            old(self).wf(),
        ensures
            final(self).wf(),
            r == old(self).texture_keys().contains(key@),
            final(self).texture_keys() == old(self).texture_keys().remove(key@),
            final(self).font_names() == old(self).font_names(),
    {
        match find_key(&self.textures, key) {
            Some(i) => {
                let _ = self.textures.remove(i);
                assert(self.texture_keys() =~= old(self).texture_keys().remove(key@)) by {
                    let o = old(self).textures@;
                    assert forall|x: Seq<u8>| #[trigger]
                        self.texture_keys().contains(x) implies old(self).texture_keys().remove(key@).contains(x) by {
                        let j = choose|j: int| 0 <= j < self.textures@.len() && self.textures@[j]@ == x;
                        if j < i {
                            assert(o[j]@ == x);
                        } else {
                            assert(o[j + 1]@ == x);
                        }
                    }
                    assert forall|x: Seq<u8>| #[trigger]
                        old(self).texture_keys().remove(key@).contains(x) implies self.texture_keys().contains(x) by {
                        let j = choose|j: int| 0 <= j < o.len() && o[j]@ == x;
                        if j < i {
                            assert(self.textures@[j]@ == x);
                        } else {
                            assert(j != i);
                            assert(self.textures@[j - 1]@ == x);
                        }
                    }
                }
                true
            },
            None => {
                assert(self.texture_keys() =~= old(self).texture_keys().remove(key@));
                false
            },
        }
    }

    /// Whether a texture is loaded under `key`.
    pub fn has_texture(&self, key: &[u8]) -> (r: bool)
        ensures
            r == self.texture_keys().contains(key@),
    {
        find_key(&self.textures, key).is_some()
    }

    /// Whether a font named `name` is loaded.
    pub fn has_font(&self, name: &[u8]) -> (r: bool)
        ensures
            r == self.font_names().contains(name@),
    {
        find_key(&self.fonts, name).is_some()
    }

    /// Records that a font named `name` is loaded; whether it was new.
    pub fn put_font(&mut self, name: Vec<u8>) -> (r: bool)
        requires
            old(self).wf(),
        ensures
            final(self).wf(),
            r == !old(self).font_names().contains(name@),
            final(self).font_names() == old(self).font_names().insert(name@),
            final(self).texture_keys() == old(self).texture_keys(),
    {
        match find_key(&self.fonts, name.as_slice()) {
            Some(_) => {
                assert(self.font_names() =~= old(self).font_names().insert(name@));
                false
            },
            None => {
                let ghost k = name@;
                self.fonts.push(name);
                assert(self.font_names() =~= old(self).font_names().insert(k)) by {
                    assert forall|x: Seq<u8>| #[trigger]
                        self.font_names().contains(x) implies old(self).font_names().insert(k).contains(x) by {
                        let i = choose|i: int| 0 <= i < self.fonts@.len() && self.fonts@[i]@ == x;
                        if i < old(self).fonts@.len() {
                            assert(old(self).fonts@[i]@ == x);
                        }
                    }
                    assert forall|x: Seq<u8>| #[trigger]
                        old(self).font_names().insert(k).contains(x) implies self.font_names().contains(x) by {
                        if x == k {
                            assert(self.fonts@[old(self).fonts@.len() as int]@ == x);
                        } else {
                            let i = choose|i: int| 0 <= i < old(self).fonts@.len() && old(self).fonts@[i]@ == x;
                            assert(self.fonts@[i]@ == x);
                        }
                    }
                }
                true
            },
        }
    }
}

} // verus!
