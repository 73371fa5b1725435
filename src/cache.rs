use vstd::prelude::*;

verus! {

/// Decoded images by file name: each name is decoded once and reused from
/// then on. Names are unique and each has the value at the same position.
pub struct ImageCache<V> {
    names: Vec<String>,
    images: Vec<V>,
}

impl<V> ImageCache<V> {
    /// The names held, in the order they were first inserted.
    pub closed spec fn names(&self) -> Seq<Seq<char>> {
        self.names@.map_values(|n: String| n@)
    }

    /// The values held, at the positions of their names.
    pub closed spec fn images(&self) -> Seq<V> {
        self.images@
    }

    pub open spec fn wf(&self) -> bool {
        &&& self.names().len() == self.images().len()
        &&& forall|i: int, j: int|
            0 <= i < j < self.names().len() ==> self.names()[i] != self.names()[j]
    }

    /// An empty cache.
    pub fn new() -> (r: ImageCache<V>)
        ensures
            r.wf(),
            r.names() == Seq::<Seq<char>>::empty(),
            r.images() == Seq::<V>::empty(),
    {
        let r = ImageCache { names: Vec::new(), images: Vec::new() };
        assert(r.names() =~= Seq::<Seq<char>>::empty());
        r
    }

    /// Number of names held.
    pub fn len(&self) -> (r: usize)
        requires
            self.wf(),
        ensures
            r == self.names().len(),
    {
        self.names.len()
    }

    /// Where `name` is held, if it is.
    pub fn position(&self, name: &String) -> (r: Option<usize>)
        requires
            self.wf(),
        ensures
            r.is_none() ==> !self.names().contains(name@),
            r.is_some() ==> r.unwrap() < self.names().len() && self.names()[r.unwrap() as int]
                == name@,
    {
        let mut i: usize = 0;
        while i < self.names.len()
            invariant
                i <= self.names@.len(),
                self.names().len() == self.names@.len(),
                forall|k: int| 0 <= k < i ==> self.names()[k] != name@,
            decreases self.names@.len() - i,
        {
            if self.names[i] == *name {
                return Some(i);
            }
            i = i + 1;
        }
        None
    }

    /// The value held under `name`, if any.
    pub fn get(&self, name: &String) -> (r: Option<&V>)
        requires
            self.wf(),
        ensures
            r.is_none() <==> !self.names().contains(name@),
            r.is_some() ==> exists|i: int|
                0 <= i < self.names().len() && self.names()[i] == name@ && self.images()[i]
                    == *r.unwrap(),
    {
        match self.position(name) {
            Some(i) => Some(&self.images[i]),
            None => None,
        }
    }

    /// Holds `image` under `name`, in place of any value held there before.
    pub fn insert(&mut self, name: String, image: V)
        requires
            old(self).wf(),
        ensures
            final(self).wf(),
            old(self).names().contains(name@) ==> final(self).names() == old(self).names(),
            !old(self).names().contains(name@) ==> final(self).names()
                == old(self).names().push(name@) && final(self).images()
                == old(self).images().push(image),
            forall|i: int|
                0 <= i < old(self).names().len() && old(self).names()[i] == name@
                    ==> final(self).images() == old(self).images().update(i, image),
    {
        match self.position(&name) {
            Some(i) => {
                self.images.set(i, image);
                assert(self.names() =~= old(self).names());
            },
            None => {
                let ghost key = name@;
                self.names.push(name);
                self.images.push(image);
                assert(self.names() =~= old(self).names().push(key));
            },
        }
    }
}

} // verus!
