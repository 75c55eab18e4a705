use vstd::prelude::*;

verus! {

/// The configuration of the window that runs the render cycle.
pub struct Window {
    title: String,
    fullscreen: bool,
    assets: Vec<(String, Vec<u8>)>,
}

impl Window {
    /// The title of the window.
    pub closed spec fn spec_title(&self) -> Seq<char> {
        self.title@
    }

    /// Whether the window covers the screen.
    pub closed spec fn spec_fullscreen(&self) -> bool {
        self.fullscreen
    }

    /// The loaded assets: path and contents.
    pub closed spec fn spec_assets(&self) -> Seq<(Seq<char>, Seq<u8>)> {
        self.assets@.map_values(|a: (String, Vec<u8>)| (a.0@, a.1@))
    }

    /// A windowed configuration with a title and no assets.
    pub fn new(title: &str) -> (r: Window)
        ensures
            r.spec_title() == title@,
            !r.spec_fullscreen(),
            r.spec_assets().len() == 0,
    {
        Window { title: title.to_owned(), fullscreen: false, assets: Vec::new() }
    }

    /// Changes whether the window covers the screen.
    pub fn set_fullscreen(self, fullscreen: bool) -> (r: Window)
        ensures
            r.spec_fullscreen() == fullscreen,
            r.spec_title() == self.spec_title(),
            r.spec_assets() == self.spec_assets(),
    {
        let mut w = self;
        w.fullscreen = fullscreen;
        w
    }

    /// Takes in assets, from the last given to the first, after those already loaded.
    pub fn load_assets(&mut self, assets: Vec<(&str, Vec<u8>)>)
        ensures
            final(self).spec_title() == old(self).spec_title(),
            final(self).spec_fullscreen() == old(self).spec_fullscreen(),
            final(self).spec_assets().len() == old(self).spec_assets().len() + assets@.len(),
            forall|i: int|
                0 <= i < old(self).spec_assets().len() ==> #[trigger] final(self).spec_assets()[i]
                    == old(self).spec_assets()[i],
            forall|i: int|
                0 <= i < assets@.len() ==> #[trigger] final(self).spec_assets()[old(
                    self,
                ).spec_assets().len() + i] == (
                assets@[assets@.len() - 1 - i].0@,
                assets@[assets@.len() - 1 - i].1@,
                ),
    {
        let ghost given = assets@;
        let ghost start = self.assets@.len();
        let mut rest = assets;
        loop
            invariant
                rest@ == given.take(rest@.len() as int),
                rest@.len() <= given.len(),
                self.assets@.len() == start + (given.len() - rest@.len()),
                self.title == old(self).title,
                self.fullscreen == old(self).fullscreen,
                forall|i: int| 0 <= i < start ==> #[trigger] self.assets@[i] == old(self).assets@[i],
                forall|i: int|
                    0 <= i < given.len() - rest@.len() ==> #[trigger] self.assets@[start + i].0@
                        == given[given.len() - 1 - i].0@ && self.assets@[start + i].1@ == given[given.len()
                        - 1 - i].1@,
            ensures
                rest@.len() == 0,
                self.assets@.len() == start + given.len(),
                self.title == old(self).title,
                self.fullscreen == old(self).fullscreen,
                forall|i: int| 0 <= i < start ==> #[trigger] self.assets@[i] == old(self).assets@[i],
                forall|i: int|
                    0 <= i < given.len() ==> #[trigger] self.assets@[start + i].0@ == given[given.len()
                        - 1 - i].0@ && self.assets@[start + i].1@ == given[given.len() - 1 - i].1@,
            decreases rest@.len(),
        {
            match rest.pop() {
                Some((path, contents)) => {
                    let ghost before = self.assets@;
                    self.assets.push((path.to_owned(), contents));
                    proof {
                        assert(rest@ =~= given.take(rest@.len() as int));
                        assert forall|i: int| 0 <= i < start implies #[trigger] self.assets@[i]
                            == old(self).assets@[i] by {
                            assert(self.assets@[i] == before[i]);
                        }
                        assert forall|i: int|
                            0 <= i < given.len() - rest@.len() implies #[trigger] self.assets@[start
                                + i].0@ == given[given.len() - 1 - i].0@ && self.assets@[start + i].1@
                                == given[given.len() - 1 - i].1@ by {
                            if i < given.len() - rest@.len() - 1 {
                                assert(self.assets@[start + i] == before[start + i]);
                            }
                        }
                    }
                },
                None => {
                    break ;
                },
            }
        }
        proof {
            assert forall|i: int| 0 <= i < given.len() implies #[trigger] self.spec_assets()[start + i] == (
                given[given.len() - 1 - i].0@,
                given[given.len() - 1 - i].1@,
            ) by {
                assert(self.assets@[start + i].0@ == given[given.len() - 1 - i].0@);
            }
        }
    }

    /// The title of the window.
    pub fn title(&self) -> (r: &str)
        ensures
            r@ == self.spec_title(),
    {
        self.title.as_str()
    }

    /// Whether the window covers the screen.
    pub fn fullscreen(&self) -> (r: bool)
        ensures
            r == self.spec_fullscreen(),
    {
        self.fullscreen
    }

    /// The loaded assets, path and contents.
    pub fn assets(&self) -> (r: &Vec<(String, Vec<u8>)>)
        ensures
            r@.map_values(|a: (String, Vec<u8>)| (a.0@, a.1@)) == self.spec_assets(),
    {
        &self.assets
    }
}

} // verus!
