//! Terminal input: the actions that the escape-sequence parser yields, and what
//! each one asks of the menu.
use vstd::prelude::*;

use crate::selection::Move;
use termwiz::escape::csi::{Cursor, CSI};
use termwiz::escape::parser::Parser;
use termwiz::escape::Action;

verus! {

/// One action decoded from terminal input, reduced to what the menu reads.
#[derive(PartialEq, Eq, Structural, Clone, Copy, Debug)]
pub enum InputAction {
    /// A printable character.
    Print(char),
    /// The cursor-up control sequence, with its count.
    CursorUp(u32),
    /// The cursor-down control sequence, with its count.
    CursorDown(u32),
    /// Any other action.
    Other,
}

/// What an input action asks of the menu.
#[derive(PartialEq, Eq, Structural, Clone, Copy, Debug)]
pub enum MenuCommand {
    Close,
    Select(Move),
    Ignore,
}

/// `q` closes the menu; `k` or cursor-up moves up; `j` or cursor-down moves down;
/// everything else is ignored.
pub open spec fn command_of(a: InputAction) -> MenuCommand {
    match a {
        InputAction::Print(c) => if c == 'q' {
            MenuCommand::Close
        } else if c == 'k' {
            MenuCommand::Select(Move::Up)
        } else if c == 'j' {
            MenuCommand::Select(Move::Down)
        } else {
            MenuCommand::Ignore
        },
        InputAction::CursorUp(_) => MenuCommand::Select(Move::Up),
        InputAction::CursorDown(_) => MenuCommand::Select(Move::Down),
        InputAction::Other => MenuCommand::Ignore,
    }
}

pub fn command_for(a: InputAction) -> (r: MenuCommand)
    ensures
        r == command_of(a),
{
    match a {
        InputAction::Print(c) => if c == 'q' {
            MenuCommand::Close
        } else if c == 'k' {
            MenuCommand::Select(Move::Up)
        } else if c == 'j' {
            MenuCommand::Select(Move::Down)
        } else {
            MenuCommand::Ignore
        },
        InputAction::CursorUp(_) => MenuCommand::Select(Move::Up),
        InputAction::CursorDown(_) => MenuCommand::Select(Move::Down),
        InputAction::Other => MenuCommand::Ignore,
    }
}

/// termwiz's escape-sequence parser, carried opaque: it keeps the unfinished
/// sequence between deliveries.
#[verifier::external_type_specification]
#[verifier::external_body]
pub struct ExParser(Parser);

/// Relies on termwiz's `Parser::new`: a parser with no pending input.
pub assume_specification[ Parser::new ]() -> Parser;

/// termwiz's parser together with a record of every byte handed to it, oldest
/// first. What the parser yields depends on those bytes alone.
pub struct InputDecoder {
    parser: Parser,
    fed: Ghost<Seq<u8>>,
}

impl InputDecoder {
    /// The bytes handed to the parser so far.
    pub closed spec fn fed(&self) -> Seq<u8> {
        self.fed@
    }

    /// A decoder that has been handed nothing.
    pub fn new() -> (r: Self)
        ensures
            r.fed() == Seq::<u8>::empty(),
    {
        InputDecoder { parser: Parser::new(), fed: Ghost(Seq::empty()) }
    }
}

/// Relies on termwiz's `Parser::parse_first`: it feeds bytes to the parser's state
/// machine one at a time and stops at the byte that completes an action, reporting
/// how many bytes it took (at least one, at most all); it returns `None` when no
/// action completes, having fed all of them, so that an unfinished sequence is
/// kept for the next call.
#[verifier::external_body]
pub(crate) fn parse_first_action(d: &mut InputDecoder, data: &[u8]) -> (r: Option<(InputAction, usize)>)
    ensures
        match r {
            Some((_, n)) => 1 <= n <= data@.len() && final(d).fed() == old(d).fed() + data@.subrange(0, n as int),
            None => final(d).fed() == old(d).fed() + data@,
        },
{
    match d.parser.parse_first(data) {
        Some((Action::Print(c), n)) => Some((InputAction::Print(c), n)),
        Some((Action::CSI(CSI::Cursor(Cursor::Up(k))), n)) => Some((InputAction::CursorUp(k), n)),
        Some((Action::CSI(CSI::Cursor(Cursor::Down(k))), n)) => Some((InputAction::CursorDown(k), n)),
        Some((_, n)) => Some((InputAction::Other, n)),
        None => None,
    }
}

} // verus!
