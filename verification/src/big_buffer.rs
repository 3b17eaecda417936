//! The map compiler's tables: each float, image, decoration name, entity
//! name and parameter string of a map is stored once, and the compiled map
//! refers to it by its position.
//!
//! Floats are held as their bit patterns (`f32::to_bits`): two floats are the
//! same entry exactly when their bits are equal.
use std::collections::HashMap;
use vstd::prelude::*;
use vstd::string::*;

use crate::interning::{intern, lemma_intern_sound, lemma_position_of, no_duplicates, position_of};
use crate::text_util::str_eq;

verus! {

broadcast use vstd::std_specs::hash::group_hash_axioms;

/// Interning tables for the map compiler.
pub struct BigBuffer {
    f32_data: Vec<u32>,
    f32_hmap: HashMap<u32, u32>,
    img_data: Vec<Vec<u8>>,
    drn_data: Vec<String>,
    ern_data: Vec<String>,
    kvs_data: Vec<String>,
}

/// The byte sequences of a list of images.
pub open spec fn images_view(v: Seq<Vec<u8>>) -> Seq<Seq<u8>> {
    v.map_values(|b: Vec<u8>| b@)
}

/// The character sequences of a list of strings.
pub open spec fn strings_view(v: Seq<String>) -> Seq<Seq<char>> {
    v.map_values(|s: String| s@)
}

/// Equality of two byte strings.
fn bytes_eq(a: &Vec<u8>, b: &Vec<u8>) -> (res: bool)
    ensures
        res == (a@ == b@),
{
    if a.len() != b.len() {
        return false;
    }
    let mut i: usize = 0;
    while i < a.len()
        invariant
            a.len() == b.len(),
            i <= a.len(),
            forall|j: int| 0 <= j < i ==> a@[j] == b@[j],
        decreases a.len() - i,
    {
        if a[i] != b[i] {
            return false;
        }
        i = i + 1;
    }
    assert(a@ =~= b@);
    true
}

/// The position of `s` in `v`, if `v` holds it.
fn find_string(v: &Vec<String>, s: &str) -> (res: Option<usize>)
    ensures
        match res {
            Some(i) => i < v@.len() && v@[i as int]@ == s@,
            None => !strings_view(v@).contains(s@),
        },
{
    let mut i: usize = 0;
    while i < v.len()
        invariant
            i <= v@.len(),
            forall|j: int| 0 <= j < i ==> v@[j]@ != s@,
        decreases v.len() - i,
    {
        if str_eq(v[i].as_str(), s) {
            return Some(i);
        }
        i = i + 1;
    }
    proof {
        if strings_view(v@).contains(s@) {
            let j = choose|j: int| 0 <= j < strings_view(v@).len() && strings_view(v@)[j] == s@;
            assert(v@[j]@ == s@);
        }
    }
    None
}

impl BigBuffer {
    /// The bit patterns of the stored floats, in order of first addition.
    pub closed spec fn floats(&self) -> Seq<u32> {
        self.f32_data@
    }

    /// The stored images, in order of first addition.
    pub closed spec fn images(&self) -> Seq<Seq<u8>> {
        images_view(self.img_data@)
    }

    /// The decoration names, in order of addition.
    pub closed spec fn decor_names(&self) -> Seq<Seq<char>> {
        strings_view(self.drn_data@)
    }

    /// The entity names, in order of addition.
    pub closed spec fn entity_names(&self) -> Seq<Seq<char>> {
        strings_view(self.ern_data@)
    }

    /// The parameter strings, in order of first addition.
    pub closed spec fn kv_strings(&self) -> Seq<Seq<char>> {
        strings_view(self.kvs_data@)
    }

    /// The tables hold no repeated entries, fit `u32` positions, and the
    /// float index agrees with the float table.
    pub closed spec fn wf(&self) -> bool {
        &&& no_duplicates(self.f32_data@)
        &&& no_duplicates(self.images())
        &&& no_duplicates(self.decor_names())
        &&& no_duplicates(self.entity_names())
        &&& no_duplicates(self.kv_strings())
        &&& self.f32_data@.len() <= u32::MAX
        &&& self.img_data@.len() <= u32::MAX
        &&& self.drn_data@.len() <= u32::MAX
        &&& self.ern_data@.len() <= u32::MAX
        &&& self.kvs_data@.len() <= u32::MAX
        &&& forall|k: u32| #[trigger]
            self.f32_hmap@.contains_key(k) <==> self.f32_data@.contains(k)
        &&& forall|i: int|
            0 <= i < self.f32_data@.len() ==> self.f32_hmap@[#[trigger] self.f32_data@[i]] == i
    }

    /// An empty buffer.
    pub fn new() -> (res: BigBuffer)
        ensures
            res.wf(),
            res.floats() == Seq::<u32>::empty(),
            res.images() == Seq::<Seq<u8>>::empty(),
            res.decor_names() == Seq::<Seq<char>>::empty(),
            res.entity_names() == Seq::<Seq<char>>::empty(),
            res.kv_strings() == Seq::<Seq<char>>::empty(),
    {
        let res = BigBuffer {
            f32_data: Vec::new(),
            f32_hmap: HashMap::new(),
            img_data: Vec::new(),
            drn_data: Vec::new(),
            ern_data: Vec::new(),
            kvs_data: Vec::new(),
        };
        assert(res.images() =~= Seq::<Seq<u8>>::empty());
        assert(res.decor_names() =~= Seq::<Seq<char>>::empty());
        assert(res.entity_names() =~= Seq::<Seq<char>>::empty());
        assert(res.kv_strings() =~= Seq::<Seq<char>>::empty());
        res
    }
    /// Stores an image once: the position of an equal image if one is
    /// stored, else the image is appended and its new position returned.
    pub fn add_image(&mut self, image: Vec<u8>) -> (res: u32)
        requires
            old(self).wf(),
            old(self).images().contains(image@) || old(self).images().len() < u32::MAX,
        ensures
            final(self).wf(),
            (final(self).images(), res as int) == intern(old(self).images(), image@),
            final(self).floats() == old(self).floats(),
            final(self).decor_names() == old(self).decor_names(),
            final(self).entity_names() == old(self).entity_names(),
            final(self).kv_strings() == old(self).kv_strings(),
    {
        let ghost old_images = self.images();
        if self.img_data.len() == 0 {
            self.img_data.push(image);
            proof {
                lemma_intern_sound(old_images, image@);
                assert(self.images() =~= old_images.push(image@));
            }
            return 0;
        }
        let mut i: usize = 0;
        while i < self.img_data.len()
            invariant
                i <= self.img_data@.len(),
                old_images == images_view(self.img_data@),
                old_images == old(self).images(),
                *self == *old(self),
                self.wf(),
                forall|j: int| 0 <= j < i ==> self.img_data@[j]@ != image@,
            decreases self.img_data.len() - i,
        {
            if bytes_eq(&self.img_data[i], &image) {
                proof {
                    assert(old_images[i as int] == image@);
                    lemma_position_of(old_images, image@, i as int);
                }
                return i as u32;
            }
            i = i + 1;
        }
        proof {
            if old_images.contains(image@) {
                let j = choose|j: int| 0 <= j < old_images.len() && old_images[j] == image@;
                assert(self.img_data@[j]@ == image@);
            }
            lemma_intern_sound(old_images, image@);
        }
        let len = self.img_data.len();
        self.img_data.push(image);
        assert(self.images() =~= old_images.push(image@));
        len as u32
    }

    /// Stores a float, given by its bit pattern, once: the position of the
    /// same bits if they are stored, else they are appended and their new
    /// position returned.
    pub fn add_f32(&mut self, bits: u32) -> (res: u32)
        requires
            old(self).wf(),
            old(self).floats().contains(bits) || old(self).floats().len() < u32::MAX,
        ensures
            final(self).wf(),
            (final(self).floats(), res as int) == intern(old(self).floats(), bits),
            final(self).images() == old(self).images(),
            final(self).decor_names() == old(self).decor_names(),
            final(self).entity_names() == old(self).entity_names(),
            final(self).kv_strings() == old(self).kv_strings(),
    {
        let ghost old_floats = self.f32_data@;
        match self.f32_hmap.get(&bits) {
            Some(index) => {
                let index = *index;
                proof {
                    let j = choose|j: int| 0 <= j < old_floats.len() && old_floats[j] == bits;
                    assert(self.f32_hmap@[old_floats[j]] == j);
                    lemma_position_of(old_floats, bits, j);
                }
                index
            },
            None => {
                let len = self.f32_data.len() as u32;
                proof {
                    lemma_intern_sound(old_floats, bits);
                }
                self.f32_hmap.insert(bits, len);
                self.f32_data.push(bits);
                proof {
                    assert forall|i: int|
                        0 <= i < self.f32_data@.len() implies self.f32_hmap@[#[trigger] self.f32_data@[i]]
                        == i by {
                        if i < old_floats.len() {
                            assert(self.f32_data@[i] == old_floats[i]);
                            assert(old_floats[i] != bits);
                        }
                    }
                    assert forall|k: u32| #[trigger]
                        self.f32_hmap@.contains_key(k) <==> self.f32_data@.contains(k) by {
                        if self.f32_data@.contains(k) {
                            let j = choose|j: int| 0 <= j < self.f32_data@.len() && self.f32_data@[j] == k;
                            if j < old_floats.len() {
                                assert(old_floats[j] == k);
                            }
                        }
                        if k != bits && self.f32_hmap@.contains_key(k) {
                            let j = choose|j: int| 0 <= j < old_floats.len() && old_floats[j] == k;
                            assert(self.f32_data@[j] == k);
                        }
                        if k == bits {
                            assert(self.f32_data@[old_floats.len() as int] == k);
                        }
                    }
                }
                len
            },
        }
    }

    /// Stores a parameter string once: the position of an equal string if
    /// one is stored, else it is appended and its new position returned.
    pub fn add_kv_string(&mut self, s: &str) -> (res: u32)
        requires
            old(self).wf(),
            old(self).kv_strings().contains(s@) || old(self).kv_strings().len() < u32::MAX,
        ensures
            final(self).wf(),
            (final(self).kv_strings(), res as int) == intern(old(self).kv_strings(), s@),
            final(self).floats() == old(self).floats(),
            final(self).images() == old(self).images(),
            final(self).decor_names() == old(self).decor_names(),
            final(self).entity_names() == old(self).entity_names(),
    {
        let ghost old_kvs = self.kv_strings();
        match find_string(&self.kvs_data, s) {
            Some(i) => {
                proof {
                    assert(old_kvs[i as int] == s@);
                    lemma_position_of(old_kvs, s@, i as int);
                }
                i as u32
            },
            None => {
                let len = self.kvs_data.len();
                proof {
                    lemma_intern_sound(old_kvs, s@);
                }
                self.kvs_data.push(String::from_str(s));
                assert(self.kv_strings() =~= old_kvs.push(s@));
                len as u32
            },
        }
    }

    /// Adds a decoration name; a name may be added only once. Gives the new
    /// name's position, or `Err(())` if the name is already there.
    pub fn add_decor_name(&mut self, s: &str) -> (res: Result<u32, ()>)
        requires
            old(self).wf(),
            old(self).decor_names().contains(s@) || old(self).decor_names().len() < u32::MAX,
        ensures
            final(self).wf(),
            old(self).decor_names().contains(s@) ==> res is Err && final(self).decor_names()
                == old(self).decor_names(),
            !old(self).decor_names().contains(s@) ==> res == Ok::<u32, ()>(
                old(self).decor_names().len() as u32,
            ) && final(self).decor_names() == old(self).decor_names().push(s@),
            final(self).floats() == old(self).floats(),
            final(self).images() == old(self).images(),
            final(self).entity_names() == old(self).entity_names(),
            final(self).kv_strings() == old(self).kv_strings(),
    {
        let ghost old_names = self.decor_names();
        match find_string(&self.drn_data, s) {
            Some(i) => {
                assert(old_names[i as int] == s@);
                Err(())
            },
            None => {
                let len = self.drn_data.len();
                proof {
                    lemma_intern_sound(old_names, s@);
                }
                self.drn_data.push(String::from_str(s));
                assert(self.decor_names() =~= old_names.push(s@));
                Ok(len as u32)
            },
        }
    }

    /// The position of a decoration name, if it was added.
    pub fn get_decor_index(&self, s: &str) -> (res: Option<u32>)
        requires
            self.wf(),
        ensures
            self.decor_names().contains(s@) ==> res == Some(
                position_of(self.decor_names(), s@) as u32,
            ),
            !self.decor_names().contains(s@) ==> res is None,
    {
        match find_string(&self.drn_data, s) {
            Some(i) => {
                proof {
                    assert(self.decor_names()[i as int] == s@);
                    lemma_position_of(self.decor_names(), s@, i as int);
                }
                Some(i as u32)
            },
            None => None,
        }
    }

    /// Adds an entity name; a name may be added only once. Gives the new
    /// name's position, or `Err(())` if the name is already there.
    pub fn add_entt_name(&mut self, s: &str) -> (res: Result<u32, ()>)
        requires
            old(self).wf(),
            old(self).entity_names().contains(s@) || old(self).entity_names().len() < u32::MAX,
        ensures
            final(self).wf(),
            old(self).entity_names().contains(s@) ==> res is Err && final(self).entity_names()
                == old(self).entity_names(),
            !old(self).entity_names().contains(s@) ==> res == Ok::<u32, ()>(
                old(self).entity_names().len() as u32,
            ) && final(self).entity_names() == old(self).entity_names().push(s@),
            final(self).floats() == old(self).floats(),
            final(self).images() == old(self).images(),
            final(self).decor_names() == old(self).decor_names(),
            final(self).kv_strings() == old(self).kv_strings(),
    {
        let ghost old_names = self.entity_names();
        match find_string(&self.ern_data, s) {
            Some(i) => {
                assert(old_names[i as int] == s@);
                Err(())
            },
            None => {
                let len = self.ern_data.len();
                proof {
                    lemma_intern_sound(old_names, s@);
                }
                self.ern_data.push(String::from_str(s));
                assert(self.entity_names() =~= old_names.push(s@));
                Ok(len as u32)
            },
        }
    }

    /// The position of an entity name, if it was added.
    pub fn get_entt_index(&self, s: &str) -> (res: Option<u32>)
        requires
            self.wf(),
        ensures
            self.entity_names().contains(s@) ==> res == Some(
                position_of(self.entity_names(), s@) as u32,
            ),
            !self.entity_names().contains(s@) ==> res is None,
    {
        match find_string(&self.ern_data, s) {
            Some(i) => {
                proof {
                    assert(self.entity_names()[i as int] == s@);
                    lemma_position_of(self.entity_names(), s@, i as int);
                }
                Some(i as u32)
            },
            None => None,
        }
    }

    /// The bit pattern of the float at position `i`, if there is one.
    pub fn get_f32(&self, i: usize) -> (res: Option<u32>)
        ensures
            i < self.floats().len() ==> res == Some(self.floats()[i as int]),
            i >= self.floats().len() ==> res is None,
    {
        if self.f32_data.len() > i {
            return Some(self.f32_data[i]);
        }
        None
    }

    /// The stored floats, as bit patterns.
    pub fn get_f32_data(&self) -> (res: &Vec<u32>)
        ensures
            res@ == self.floats(),
    {
        &self.f32_data
    }

    /// The stored images.
    pub fn get_img_data(&self) -> (res: &Vec<Vec<u8>>)
        ensures
            images_view(res@) == self.images(),
    {
        &self.img_data
    }

    /// The decoration names.
    pub fn get_drn_data(&self) -> (res: &Vec<String>)
        ensures
            strings_view(res@) == self.decor_names(),
    {
        &self.drn_data
    }

    /// The entity names.
    pub fn get_ern_data(&self) -> (res: &Vec<String>)
        ensures
            strings_view(res@) == self.entity_names(),
    {
        &self.ern_data
    }

    /// The parameter strings.
    pub fn get_kvs_data(&self) -> (res: &Vec<String>)
        ensures
            strings_view(res@) == self.kv_strings(),
    {
        &self.kvs_data
    }
}

} // verus!
