//! The menu: its items, the highlighted index, and whether it is closing.
use vstd::prelude::*;

use crate::input::{command_for, command_of, parse_first_action, InputAction, InputDecoder, MenuCommand};
use crate::selection::{index_after, select_down, select_up, Move};
use vstd::slice::slice_subrange;

verus! {

/// Lifecycle of a menu.
#[derive(PartialEq, Eq, Structural, Clone, Copy, Debug)]
pub enum MenuState {
    Open,
    Closing,
}

/// What the menu's behaviour depends on: the highlighted index and the lifecycle.
pub struct MenuModel {
    pub selected: Option<usize>,
    pub state: MenuState,
}

/// The effect of one input action on a menu of `len` items. A closing menu no
/// longer changes.
pub open spec fn apply_action(m: MenuModel, len: usize, a: InputAction) -> MenuModel {
    if m.state == MenuState::Closing {
        m
    } else {
        match command_of(a) {
            MenuCommand::Close => MenuModel { state: MenuState::Closing, ..m },
            MenuCommand::Select(mv) => MenuModel { selected: index_after(m.selected, len, mv), ..m },
            MenuCommand::Ignore => m,
        }
    }
}

/// The effect of a sequence of input actions, applied first to last.
pub open spec fn apply_actions(m: MenuModel, len: usize, actions: Seq<InputAction>) -> MenuModel
    decreases actions.len(),
{
    if actions.len() == 0 {
        m
    } else {
        apply_action(apply_actions(m, len, actions.drop_last()), len, actions.last())
    }
}

/// The labels of a new menu, in display order.
pub open spec fn default_labels() -> Seq<Seq<char>> {
    seq![seq!['H', 'e', 'l', 'l', 'o'], seq!['W', 'o', 'r', 'l', 'd'], seq!['m', 'e', 'm', 'e', 's']]
}

/// The items of a menu with its selection and lifecycle.
struct ItemList {
    items: Vec<String>,
    selected: Option<usize>,
    state: MenuState,
}

impl ItemList {
    /// A menu always has at least one item.
    #[verifier::type_invariant]
    closed spec fn has_items(&self) -> bool {
        self.items@.len() >= 1
    }

    closed spec fn model(&self) -> MenuModel {
        MenuModel { selected: self.selected, state: self.state }
    }

    closed spec fn labels(&self) -> Seq<Seq<char>> {
        self.items@.map_values(|s: String| s@)
    }

    fn select_item_down(&mut self)
        ensures
            final(self).labels() == old(self).labels(),
            final(self).model() == (MenuModel {
                selected: index_after(old(self).model().selected, old(self).labels().len() as usize, Move::Down),
                ..old(self).model()
            }),
    {
        proof {
            use_type_invariant(&*self);
        }
        self.selected = select_down(self.selected, self.items.len());
    }

    fn select_item_up(&mut self)
        ensures
            final(self).labels() == old(self).labels(),
            final(self).model() == (MenuModel {
                selected: index_after(old(self).model().selected, old(self).labels().len() as usize, Move::Up),
                ..old(self).model()
            }),
    {
        proof {
            use_type_invariant(&*self);
        }
        self.selected = select_up(self.selected, self.items.len());
    }

    fn apply(&mut self, a: InputAction)
        ensures
            final(self).labels() == old(self).labels(),
            final(self).model() == apply_action(old(self).model(), old(self).labels().len() as usize, a),
    {
        proof {
            use_type_invariant(&*self);
        }
        if self.state == MenuState::Closing {
            return;
        }
        match command_for(a) {
            MenuCommand::Close => {
                self.state = MenuState::Closing;
            },
            MenuCommand::Select(Move::Up) => self.select_item_up(),
            MenuCommand::Select(Move::Down) => self.select_item_down(),
            MenuCommand::Ignore => {},
        }
    }
}

/// A selectable menu driven by terminal input.
pub struct PukekoMenu {
    decoder: InputDecoder,
    list: ItemList,
}

impl PukekoMenu {
    pub closed spec fn model(&self) -> MenuModel {
        self.list.model()
    }

    /// The item labels, in display order.
    pub closed spec fn labels(&self) -> Seq<Seq<char>> {
        self.list.labels()
    }

    /// Every input byte handed to the menu's decoder so far, oldest first.
    pub closed spec fn fed(&self) -> Seq<u8> {
        self.decoder.fed()
    }

    pub open spec fn item_count(&self) -> usize {
        self.labels().len() as usize
    }

    /// A new open menu of the three default items, the first one highlighted.
    pub fn new() -> (r: Self)
        ensures
            r.labels() == default_labels(),
            r.model() == (MenuModel { selected: Some(0usize), state: MenuState::Open }),
            r.fed() == Seq::<u8>::empty(),
    {
        let a = "Hello".to_owned();
        let b = "World".to_owned();
        let c = "memes".to_owned();
        proof {
            reveal_strlit("Hello");
            reveal_strlit("World");
            reveal_strlit("memes");
        }
        assert(a@ =~= default_labels()[0]);
        assert(b@ =~= default_labels()[1]);
        assert(c@ =~= default_labels()[2]);
        let items = vec![a, b, c];
        let list = ItemList { items, selected: Some(0), state: MenuState::Open };
        assert(list.labels() =~= default_labels());
        PukekoMenu { decoder: InputDecoder::new(), list }
    }

    pub fn state(&self) -> (r: &MenuState)
        ensures
            *r == self.model().state,
    {
        &self.list.state
    }

    pub fn selected(&self) -> (r: Option<usize>)
        ensures
            r == self.model().selected,
    {
        self.list.selected
    }

    pub fn items(&self) -> (r: &Vec<String>)
        ensures
            r@.map_values(|s: String| s@) == self.labels(),
    {
        &self.list.items
    }

    /// Whether a redraw shows the items: only while open. A closing menu is drawn
    /// as a blank, cleared frame.
    pub fn shows_items(&self) -> (r: bool)
        ensures
            r == (self.model().state == MenuState::Open),
    {
        match self.list.state {
            MenuState::Open => true,
            MenuState::Closing => false,
        }
    }

    /// Applies one decoded input action.
    pub fn apply(&mut self, a: InputAction)
        ensures
            final(self).labels() == old(self).labels(),
            final(self).fed() == old(self).fed(),
            final(self).model() == apply_action(old(self).model(), old(self).item_count(), a),
    {
        self.list.apply(a);
    }

    /// Decodes one delivery of input bytes, continuing any sequence left unfinished
    /// by the previous delivery, and applies each completed action in order. Returns
    /// the actions decoded, each of which took at least one byte.
    pub fn handle_data(&mut self, data: &[u8]) -> (r: Vec<InputAction>)
        ensures
            final(self).labels() == old(self).labels(),
            final(self).fed() == old(self).fed() + data@,
            r@.len() <= data@.len(),
            final(self).model() == apply_actions(old(self).model(), old(self).item_count(), r@),
    {
        let mut decoded: Vec<InputAction> = Vec::new();
        let mut pos: usize = 0;
        while pos < data.len()
            invariant
                pos <= data@.len(),
                decoded@.len() <= pos,
                self.labels() == old(self).labels(),
                self.fed() == old(self).fed() + data@.subrange(0, pos as int),
                self.model() == apply_actions(old(self).model(), old(self).item_count(), decoded@),
            decreases data@.len() - pos,
        {
            let rest = slice_subrange(data, pos, data.len());
            match parse_first_action(&mut self.decoder, rest) {
                Some((a, n)) => {
                    self.list.apply(a);
                    let ghost prev = decoded@;
                    decoded.push(a);
                    assert(decoded@.drop_last() =~= prev);
                    assert(data@.subrange(0, pos + n) =~= data@.subrange(0, pos as int) + rest@.subrange(0, n as int));
                    pos = pos + n;
                },
                None => {
                    assert(data@.subrange(0, data@.len() as int) =~= data@.subrange(0, pos as int) + rest@);
                    pos = data.len();
                },
            }
        }
        assert(data@.subrange(0, pos as int) =~= data@);
        decoded
    }
}

} // verus!

verus! {

/// Input split over several deliveries acts as it would in one: applying the
/// actions of a first delivery and then those of a second gives the same menu as
/// applying all of them at once.
pub proof fn lemma_split_deliveries(
    m: MenuModel,
    len: usize,
    first: Seq<InputAction>,
    second: Seq<InputAction>,
)
    ensures
        apply_actions(apply_actions(m, len, first), len, second) == apply_actions(
            m,
            len,
            first + second,
        ),
    decreases second.len(),
{
    if second.len() == 0 {
        assert(first + second =~= first);
    } else {
        lemma_split_deliveries(m, len, first, second.drop_last());
        assert((first + second).drop_last() =~= first + second.drop_last());
    }
}

} // verus!
