use crate::character::Character;
use crate::character::CharacterView;
use crate::draw::DrawCommand;
use vstd::prelude::*;

verus! {

/// Everything that one frame is drawn from: the characters, and the registry
/// of the textures that their animations sample by index.
///
/// The textures themselves are handles of the graphics system; the library
/// keeps them and never looks inside one.
pub struct State<T> {
    characters: Vec<Character>,
    textures: Vec<T>,
}

/// The mathematical content of a [`State`].
#[verifier::ext_equal]
pub struct StateView<T> {
    /// The characters, in drawing order, each by its own view.
    pub characters: Seq<CharacterView>,
    /// The texture registry.
    pub textures: Seq<T>,
}

/// The views of the characters in a list, in order.
pub open spec fn character_views(characters: Seq<Character>) -> Seq<CharacterView> {
    characters.map_values(|c: Character| c@)
}

impl<T> StateView<T> {
    /// Every character can be drawn: it is well formed, and the animation
    /// that plays samples a registered texture.
    pub open spec fn wf(self) -> bool {
        forall|i: int|
            0 <= i < self.characters.len() ==> (#[trigger] self.characters[i]).drawable(
                self.textures.len(),
            )
    }

    /// The state with both selectors of one character set to `pose`.
    pub open spec fn select_pose(self, character: int, pose: nat) -> StateView<T>
        recommends
            0 <= character < self.characters.len(),
    {
        StateView {
            characters: self.characters.update(character, self.characters[character].select(pose)),
            ..self
        }
    }

    /// What has to be drawn for the characters, in order.
    pub open spec fn draw_commands(self) -> Seq<DrawCommand> {
        self.characters.map_values(|c: CharacterView| c.draw_command())
    }

    /// Whether `next` can be this state one frame later: the same textures
    /// and as many characters, each of them one step by the clock later.
    pub open spec fn stepped_to(self, next: StateView<T>) -> bool {
        &&& next.textures == self.textures
        &&& next.characters.len() == self.characters.len()
        &&& forall|i: int|
            0 <= i < self.characters.len() ==> (#[trigger] self.characters[i]).stepped_to(
                next.characters[i],
            )
    }
}

impl<T> View for State<T> {
    type V = StateView<T>;

    closed spec fn view(&self) -> StateView<T> {
        StateView { characters: character_views(self.characters@), textures: self.textures@ }
    }
}

impl<T> State<T> {
    /// Every character can be drawn; see [`StateView::wf`].
    pub open spec fn wf(&self) -> bool {
        self@.wf()
    }

    /// The state that owns the given characters and textures.
    pub fn new(characters: Vec<Character>, textures: Vec<T>) -> (state: Self)
        ensures
            state@.characters == character_views(characters@),
            state@.textures == textures@,
    {
        Self { characters, textures }
    }

    /// The characters, in drawing order.
    pub fn characters(&self) -> (characters: &Vec<Character>)
        ensures
            character_views(characters@) == self@.characters,
    {
        &self.characters
    }

    /// The texture registry.
    pub fn textures(&self) -> (textures: &Vec<T>)
        ensures
            textures@ == self@.textures,
    {
        &self.textures
    }

    /// Whether the state is well formed.
    pub fn is_wf(&self) -> (ok: bool)
        ensures
            ok == self.wf(),
    {
        let mut i: usize = 0;
        while i < self.characters.len()
            invariant
                i <= self.characters@.len(),
                forall|j: int|
                    0 <= j < i ==> (#[trigger] self@.characters[j]).drawable(
                        self@.textures.len(),
                    ),
            decreases self.characters@.len() - i,
        {
            let character = &self.characters[i];
            assert(character@ == self@.characters[i as int]);
            if !character.is_drawable(self.textures.len()) {
                return false;
            }
            i = i + 1;
        }
        true
    }

    /// Sets both selectors of the character at index `character` to `pose`.
    /// Nothing else changes.
    pub fn select_pose(&mut self, character: usize, pose: usize)
        requires
            character < old(self)@.characters.len(),
        ensures
            final(self)@ == old(self)@.select_pose(character as int, pose as nat),
    {
        self.characters[character].set_current_dest_rect(pose);
        self.characters[character].set_current_animation_idx(pose);
    }

    /// Plans the characters' part of one frame and lets time pass: for each
    /// character in order, the command that draws the current frame of the
    /// animation that plays at the placement in use, after which that
    /// animation takes one step by the clock.
    ///
    /// The commands are those of the state before the call. Every command
    /// names a registered texture.
    pub fn draw(&mut self) -> (commands: Vec<DrawCommand>)
        requires
            old(self).wf(),
        ensures
            commands@ == old(self)@.draw_commands(),
            forall|i: int|
                0 <= i < commands@.len() ==> (#[trigger] commands@[i]).texture_below(
                    final(self)@.textures.len(),
                ),
            old(self)@.stepped_to(final(self)@),
            final(self).wf(),
    {
        let mut commands: Vec<DrawCommand> = Vec::new();
        let mut i: usize = 0;
        while i < self.characters.len()
            invariant
                i <= self.characters@.len(),
                self.wf(),
                self@.textures == old(self)@.textures,
                self@.characters.len() == old(self)@.characters.len(),
                forall|j: int|
                    0 <= j < i ==> (#[trigger] old(self)@.characters[j]).stepped_to(
                        self@.characters[j],
                    ),
                forall|j: int|
                    i <= j < self@.characters.len() ==> self@.characters[j] == old(self)@
                        .characters[j],
                commands@ == old(self)@.draw_commands().take(i as int),
            decreases self.characters@.len() - i,
        {
            let ghost before = *self;
            assert(self.characters@[i as int]@ == self@.characters[i as int]);
            let command = self.characters[i].draw_command();
            self.characters[i].advance();
            commands.push(command);
            proof {
                assert(self@.characters =~= before@.characters.update(
                    i as int,
                    self.characters@[i as int]@,
                ));
            }
            i = i + 1;
        }
        commands
    }
}

} // verus!
