//! Places in the file system, as an anchor and the names below it.

use vstd::prelude::*;
use vstd::string::StringExecFns;

verus! {

/// A directory or a file: the root or drive prefix that the operating system
/// gave, and the names that lead from there to the place, outermost first.
/// Each name stands for one component. A name that holds a slash or a
/// backslash stands for the path that joining it makes; what lies directly
/// in what is only said of names without them.
#[derive(Debug, PartialEq, Eq)]
pub struct Location {
    /// The root or prefix; empty for a relative place.
    pub anchor: String,
    /// The components below the anchor.
    pub names: Vec<String>,
}

/// What a [`Location`] holds, as plain values.
pub struct Place {
    pub anchor: Seq<char>,
    pub names: Seq<Seq<char>>,
}

impl Place {
    /// The place that holds this one; an anchor alone has none.
    pub open spec fn parent(self) -> Option<Place> {
        if self.names.len() > 0 {
            Some(Place { anchor: self.anchor, names: self.names.drop_last() })
        } else {
            None
        }
    }

    /// The place `hops` levels above this one, if there are that many.
    pub open spec fn up(self, hops: nat) -> Option<Place>
        decreases hops,
    {
        if hops == 0 {
            Some(self)
        } else {
            match self.parent() {
                Some(above) => above.up((hops - 1) as nat),
                None => None,
            }
        }
    }

    /// The place called `name` directly inside this one.
    pub open spec fn join(self, name: Seq<char>) -> Place {
        Place { anchor: self.anchor, names: self.names.push(name) }
    }

    /// Going up `hops` levels keeps the anchor and drops the last `hops`
    /// names; it fails exactly when there are fewer names than that.
    pub proof fn lemma_up(self, hops: nat)
        ensures
            self.up(hops) == if hops <= self.names.len() {
                Some(
                    Place { anchor: self.anchor, names: self.names.take(self.names.len() - hops) },
                )
            } else {
                None::<Place>
            },
        decreases hops,
    {
        if hops == 0 {
            assert(self.names.take(self.names.len() as int) == self.names);
        } else if self.names.len() > 0 {
            let above = self.parent().unwrap();
            above.lemma_up((hops - 1) as nat);
            if hops <= self.names.len() {
                assert(above.names.take(above.names.len() - (hops - 1)) == self.names.take(
                    self.names.len() - hops,
                ));
            }
        }
    }

    /// The parent of what was joined is the place joined to.
    pub proof fn lemma_parent_of_join(self, name: Seq<char>)
        ensures
            self.join(name).parent() == Some(self),
    {
        assert(self.names.push(name).drop_last() == self.names);
    }
}

impl View for Location {
    type V = Place;

    open spec fn view(&self) -> Place {
        Place { anchor: self.anchor@, names: self.names.deep_view() }
    }
}

impl DeepView for Location {
    type V = Place;

    open spec fn deep_view(&self) -> Place {
        self@
    }
}

impl Location {
    /// The place with this anchor and these names.
    pub fn new(anchor: String, names: Vec<String>) -> (r: Location)
        ensures
            r@ == (Place { anchor: anchor@, names: names.deep_view() }),
    {
        Location { anchor, names }
    }

    /// The first `count` names of this place, each copied.
    fn leading_names(&self, count: usize) -> (names: Vec<String>)
        requires
            count <= self.names.len(),
        ensures
            names.deep_view() == self@.names.take(count as int),
    {
        let mut names: Vec<String> = Vec::new();
        let mut i: usize = 0;
        while i < count
            invariant
                i <= count <= self.names.len(),
                names@.len() == i,
                names.deep_view() == self@.names.take(i as int),
            decreases count - i,
        {
            let ghost before = names;
            names.push(self.names[i].clone());
            i += 1;
            assert forall|k: int| 0 <= k < i implies names.deep_view()[k] == self@.names[k] by {
                if k < i - 1 {
                    assert(before.deep_view()[k] == self@.names.take(i - 1)[k]);
                }
            }
        }
        names
    }

    /// A copy of this place.
    pub fn duplicate(&self) -> (r: Location)
        ensures
            r@ == self@,
    {
        let names = self.leading_names(self.names.len());
        assert(self@.names.take(self.names.len() as int) == self@.names);
        Location { anchor: self.anchor.clone(), names }
    }

    /// The place that holds this one, or `None` for an anchor alone.
    pub fn parent(&self) -> (r: Option<Location>)
        ensures
            r.deep_view() == self@.parent(),
    {
        if self.names.len() == 0 {
            None
        } else {
            let names = self.leading_names(self.names.len() - 1);
            Some(Location { anchor: self.anchor.clone(), names })
        }
    }

    /// The place `hops` levels above this one, or `None` if there are fewer
    /// names than that.
    pub fn up(&self, hops: usize) -> (r: Option<Location>)
        ensures
            r.deep_view() == self@.up(hops as nat),
    {
        proof {
            self@.lemma_up(hops as nat);
        }
        if hops > self.names.len() {
            None
        } else {
            let names = self.leading_names(self.names.len() - hops);
            Some(Location { anchor: self.anchor.clone(), names })
        }
    }

    /// The place called `name` inside this one. It lies directly inside
    /// only if `name` is one component, with no slash or backslash in it.
    pub fn join(&self, name: &str) -> (r: Location)
        ensures
            r@ == self@.join(name@),
    {
        let mut names = self.leading_names(self.names.len());
        assert(self@.names.take(self.names.len() as int) == self@.names);
        names.push(String::from_str(name));
        assert(names.deep_view() =~= self@.names.push(name@));
        Location { anchor: self.anchor.clone(), names }
    }
}

} // verus!
