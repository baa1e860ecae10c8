//! Scene sequencing: which scene follows which, the slideshow scenes that
//! frame a match, and draw-layer numbering.

use vstd::prelude::*;

verus! {

/// The scenes of the program, shown in a cycle.
#[derive(Debug, PartialEq, Eq, Clone, Copy, Structural)]
pub enum SceneType {
    Intro,
    Game,
    Outro,
}

/// What a scene reports after an update: stay, or hand over to the next
/// scene.
#[derive(Debug, PartialEq, Eq, Clone, Copy, Structural)]
pub enum SceneReturn {
    Good,
    Finished,
}

/// The scene after `s`: intro, game, outro, and back to the intro.
pub open spec fn scene_after(s: SceneType) -> SceneType {
    match s {
        SceneType::Intro => SceneType::Game,
        SceneType::Game => SceneType::Outro,
        SceneType::Outro => SceneType::Intro,
    }
}

impl SceneType {
    /// The scene that follows this one when it finishes.
    pub fn next(&self) -> (r: SceneType)
        ensures
            r == scene_after(*self),
    {
        match self {
            SceneType::Intro => SceneType::Game,
            SceneType::Game => SceneType::Outro,
            SceneType::Outro => SceneType::Intro,
        }
    }
}

/// A slideshow of `max_scenes` pages, turned one page at a time.
pub struct Slides {
    curr_scene_index: usize,
    max_scenes: usize,
}

impl View for Slides {
    /// The current page and the number of pages.
    type V = (usize, usize);

    closed spec fn view(&self) -> (usize, usize) {
        (self.curr_scene_index, self.max_scenes)
    }
}

impl Slides {
    /// A slideshow of `max_scenes` pages, on its first page.
    pub fn new(max_scenes: usize) -> (r: Self)
        ensures
            r@ == (0usize, max_scenes),
    {
        Slides { curr_scene_index: 0, max_scenes }
    }

    /// The page shown now.
    pub fn index(&self) -> (r: usize)
        ensures
            r == self@.0,
    {
        self.curr_scene_index
    }

    /// Turns the page. After the last page the show starts over and reports
    /// `Finished`.
    pub fn advance(&mut self) -> (r: SceneReturn)
        ensures
            old(self)@.0 + 1 < old(self)@.1 ==> final(self)@ == ((old(self)@.0 + 1) as usize, old(
                self,
            )@.1) && r == SceneReturn::Good,
            !(old(self)@.0 + 1 < old(self)@.1) ==> final(self)@ == (0usize, old(self)@.1) && r
                == SceneReturn::Finished,
    {
        if self.max_scenes > 0 && self.curr_scene_index < self.max_scenes - 1 {
            self.curr_scene_index = self.curr_scene_index + 1;
            SceneReturn::Good
        } else {
            self.curr_scene_index = 0;
            SceneReturn::Finished
        }
    }
}

/// Hands out draw-layer numbers in increasing order, so that no two draws
/// share a layer.
pub struct PlaneManager {
    z_plane: u32,
}

impl View for PlaneManager {
    /// The next layer number to be handed out.
    type V = u32;

    closed spec fn view(&self) -> u32 {
        self.z_plane
    }
}

impl PlaneManager {
    pub fn new() -> (r: Self)
        ensures
            r@ == 0,
    {
        PlaneManager { z_plane: 0 }
    }

    /// Hands out the next layer number.
    pub fn next_z_plane(&mut self) -> (r: u32)
        requires
            old(self)@ < u32::MAX,
        ensures
            r == old(self)@,
            final(self)@ == old(self)@ + 1,
    {
        let r = self.z_plane;
        self.z_plane = self.z_plane + 1;
        r
    }

    /// The layer number that will be handed out next.
    pub fn peek_next(&self) -> (r: u32)
        ensures
            r == self@,
    {
        self.z_plane
    }
}

} // verus!
