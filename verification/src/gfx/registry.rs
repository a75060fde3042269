//! Keyed lists of render resources: the glTF scene manager, and the lookup of a font or
//! sprite renderer by name.

use vstd::prelude::*;
use crate::file_system::same_text;

verus! {

/// The position of the first name equal to `name`, if any.
pub fn first_index_named(names: &Vec<&'static str>, name: &str) -> (found: Option<usize>)
    ensures
        match found {
            Some(i) => i < names@.len() && names@[i as int]@ == name@ && forall|j: int|
                0 <= j < i ==> (#[trigger] names@[j])@ != name@,
            None => forall|j: int| 0 <= j < names@.len() ==> (#[trigger] names@[j])@ != name@,
        },
{
    let mut i: usize = 0;
    while i < names.len()
        invariant
            i <= names@.len(),
            forall|j: int| 0 <= j < i ==> (#[trigger] names@[j])@ != name@,
        decreases names@.len() - i,
    {
        if same_text(names[i], name) {
            return Some(i);
        }
        i = i + 1;
    }
    None
}

/// GLTF scene manager: the scenes, each under the file it is loaded from.
pub struct GltfManager<TScene> {
    scenes: Vec<(&'static str, TScene)>,
}

/// No file appears twice.
pub open spec fn unique_files<TScene>(scenes: Seq<(&'static str, TScene)>) -> bool {
    forall|i: int, j: int|
        0 <= i < j < scenes.len() ==> (#[trigger] scenes[i]).0@ != (#[trigger] scenes[j]).0@
}

impl<TScene> GltfManager<TScene> {
    /// The scenes, in the order they were loaded.
    pub closed spec fn scenes(&self) -> Seq<(&'static str, TScene)> {
        self.scenes@
    }

    /// Whether a scene for `file` is held.
    pub open spec fn holds(&self, file: Seq<char>) -> bool {
        exists|i: int| 0 <= i < self.scenes().len() && (#[trigger] self.scenes()[i]).0@ == file
    }

    /// Each file has at most one scene.
    pub open spec fn wf(&self) -> bool {
        unique_files(self.scenes())
    }

    /// Creates a new GLTF manager.
    pub fn new(max_scenes: usize) -> (manager: Self)
        ensures
            manager.scenes() == Seq::<(&'static str, TScene)>::empty(),
            manager.wf(),
    {
        Self { scenes: Vec::with_capacity(max_scenes) }
    }

    /// The position of the scene for `file`, if one is held.
    pub fn find_index(&self, file: &'static str) -> (found: Option<usize>)
        ensures
            match found {
                Some(i) => i < self.scenes().len() && self.scenes()[i as int].0@ == file@
                    && forall|j: int| 0 <= j < i ==> (#[trigger] self.scenes()[j]).0@ != file@,
                None => !self.holds(file@),
            },
    {
        let mut i: usize = 0;
        while i < self.scenes.len()
            invariant
                i <= self.scenes@.len(),
                forall|j: int| 0 <= j < i ==> (#[trigger] self.scenes@[j]).0@ != file@,
            decreases self.scenes@.len() - i,
        {
            if same_text(self.scenes[i].0, file) {
                return Some(i);
            }
            i = i + 1;
        }
        None
    }

    /// Whether a scene for `file` must still be loaded.
    pub fn needs_load(&self, file: &'static str) -> (needed: bool)
        ensures
            needed == !self.holds(file@),
    {
        match self.find_index(file) {
            Some(_) => false,
            None => true,
        }
    }

    /// Keeps a freshly started scene for `file`, unless a scene for `file` is already
    /// held: then nothing changes and the given scene is dropped.
    pub fn load_scene(&mut self, file: &'static str, scene: TScene)
        ensures
            old(self).holds(file@) ==> final(self).scenes() == old(self).scenes(),
            !old(self).holds(file@) ==> final(self).scenes() == old(self).scenes().push((file, scene)),
            old(self).wf() ==> final(self).wf(),
            final(self).holds(file@),
    {
        match self.find_index(file) {
            Some(_) => {},
            None => {
                self.scenes.push((file, scene));
                assert(self.scenes@.last() == (file, scene));
                assert(self.scenes@[self.scenes@.len() - 1].0@ == file@);
            },
        }
    }

    /// Drops the scene for `file`, if one is held.
    pub fn drop_scene(&mut self, file: &'static str)
        ensures
            match old(self).find_index_spec(file@) {
                Some(i) => final(self).scenes() == old(self).scenes().remove(i),
                None => final(self).scenes() == old(self).scenes(),
            },
            old(self).wf() ==> final(self).wf() && !final(self).holds(file@),
    {
        match self.find_index(file) {
            Some(i) => {
                let ghost before = self.scenes@;
                self.scenes.remove(i);
                proof {
                    if unique_files(before) {
                        assert forall|a: int, b: int|
                            0 <= a < b < self.scenes@.len() implies (#[trigger] self.scenes@[a]).0@
                            != (#[trigger] self.scenes@[b]).0@ by {
                            let a0 = if a < i { a } else { a + 1 };
                            let b0 = if b < i { b } else { b + 1 };
                            assert(self.scenes@[a] == before[a0]);
                            assert(self.scenes@[b] == before[b0]);
                        }
                        assert forall|k: int| 0 <= k < self.scenes@.len() implies (#[trigger] self.scenes@[k]).0@ != file@ by {
                            let k0 = if k < i { k } else { k + 1 };
                            assert(self.scenes@[k] == before[k0]);
                            if k0 != i as int {
                                if k0 < i {
                                } else {
                                    assert(before[i as int].0@ != before[k0].0@);
                                }
                            }
                        }
                    }
                }
            },
            None => {},
        }
    }

    /// The position of the first scene for `file`, if any.
    pub open spec fn find_index_spec(&self, file: Seq<char>) -> Option<int> {
        if self.holds(file) {
            Some(choose|i: int| 0 <= i < self.scenes().len() && self.scenes()[i].0@ == file
                && forall|j: int| 0 <= j < i ==> (#[trigger] self.scenes()[j]).0@ != file)
        } else {
            None
        }
    }

    /// The number of scenes.
    pub fn len(&self) -> (n: usize)
        ensures
            n == self.scenes().len(),
    {
        self.scenes.len()
    }

    /// The scene at position `i`, to process or render it.
    pub fn scene_mut(&mut self, i: usize) -> (scene: &mut TScene)
        requires
            i < old(self).scenes().len(),
        ensures
            *scene == old(self).scenes()[i as int].1,
            final(self).scenes() == old(self).scenes().update(
                i as int,
                (old(self).scenes()[i as int].0, *final(scene)),
            ),
    {
        &mut self.scenes[i].1
    }

    /// The scene at position `i`.
    pub fn scene(&self, i: usize) -> (scene: &TScene)
        requires
            i < self.scenes().len(),
        ensures
            *scene == self.scenes()[i as int].1,
    {
        &self.scenes[i].1
    }
}

/// Dropping the scene of a file right after loading it gives back the manager as it was.
pub proof fn lemma_drop_undoes_load<TScene>(
    before: GltfManager<TScene>,
    loaded: GltfManager<TScene>,
    file: &'static str,
    scene: TScene,
)
    requires
        !before.holds(file@),
        loaded.scenes() == before.scenes().push((file, scene)),
    ensures
        loaded.find_index_spec(file@) == Some(before.scenes().len() as int),
        loaded.scenes().remove(before.scenes().len() as int) == before.scenes(),
{
    let n = before.scenes().len() as int;
    assert(loaded.scenes()[n].0@ == file@);
    assert(loaded.holds(file@));
    assert forall|j: int| 0 <= j < n implies (#[trigger] loaded.scenes()[j]).0@ != file@ by {
        assert(loaded.scenes()[j] == before.scenes()[j]);
    }
    let i = choose|i: int| 0 <= i < loaded.scenes().len() && loaded.scenes()[i].0@ == file@
        && forall|j: int| 0 <= j < i ==> (#[trigger] loaded.scenes()[j]).0@ != file@;
    if i < n {
        assert(loaded.scenes()[i] == before.scenes()[i]);
    }
    assert(loaded.scenes().remove(n) =~= before.scenes());
}

} // verus!
