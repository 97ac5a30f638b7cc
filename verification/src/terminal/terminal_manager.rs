//! The registry of terminals.

use vstd::hash_map::StringHashMap;
use vstd::prelude::*;
use crate::terminal::terminal_server::pty_dimensions;
use crate::terminal::terminal_server::PtyDimensions;
use crate::terminal::types::TerminalError;
use crate::terminal::types::TerminalSize;

verus! {

/// Whether `id` has the shape of a random UUID in its hyphenated form: 36
/// characters, hyphens after the groups of 8, 4, 4 and 4, and the version
/// digit 4.
pub open spec fn is_random_uuid(id: Seq<char>) -> bool {
    &&& id.len() == 36
    &&& id[8] == '-'
    &&& id[13] == '-'
    &&& id[18] == '-'
    &&& id[23] == '-'
    &&& id[14] == '4'
}

/// `uuid::Uuid::new_v4` followed by `to_string`: a random UUID of version 4
/// in its hyphenated form. Which UUID it is, is a matter of chance.
#[verifier::external_body]
fn random_id() -> (r: String)
    ensures
        is_random_uuid(r@),
{
    uuid::Uuid::new_v4().to_string()
}

/// The terminals of a session, by id. `T` is what the caller keeps for each
/// terminal: its pseudo-terminal and its writer.
#[verifier::reject_recursive_types(T)]
pub struct TerminalManager<T> {
    terminals: StringHashMap<T>,
}

impl<T> View for TerminalManager<T> {
    type V = Map<Seq<char>, T>;

    /// The terminal kept under each id.
    closed spec fn view(&self) -> Map<Seq<char>, T> {
        self.terminals@
    }
}

impl<T> TerminalManager<T> {
    /// A registry without terminals.
    pub fn new() -> (r: Self)
        ensures
            r@ == Map::<Seq<char>, T>::empty(),
    {
        TerminalManager { terminals: StringHashMap::new() }
    }

    /// The number of terminals.
    pub fn len(&self) -> (r: usize)
        ensures
            r == self@.len(),
    {
        self.terminals.len()
    }

    /// A fresh id for a terminal: a random UUID.
    pub fn new_terminal_id() -> (r: String)
        ensures
            is_random_uuid(r@),
    {
        random_id()
    }

    /// Registers `terminal` under `id`, which comes from `new_terminal_id`, and
    /// returns the id.
    pub fn create_terminal(&mut self, id: String, terminal: T) -> (r: String)
        ensures
            r == id,
            final(self)@ == old(self)@.insert(id@, terminal),
    {
        self.terminals.insert(id.clone(), terminal);
        id
    }

    /// The terminal to write to.
    pub fn write_to_terminal(&self, id: &str) -> (r: Result<&T, TerminalError>)
        ensures
            match r {
                Ok(terminal) => self@.contains_key(id@) && *terminal == self@[id@],
                Err(e) => !self@.contains_key(id@) && e == TerminalError::TerminalNotFound,
            },
    {
        match self.terminals.get(id) {
            Some(terminal) => Ok(terminal),
            None => Err(TerminalError::TerminalNotFound),
        }
    }

    /// The terminal to resize, and the size to give it.
    pub fn resize_terminal(&self, id: &str, size: TerminalSize) -> (r: Result<
        (&T, PtyDimensions),
        TerminalError,
    >)
        ensures
            match r {
                Ok((terminal, dimensions)) => self@.contains_key(id@) && *terminal == self@[id@]
                    && dimensions == (PtyDimensions {
                    rows: size.rows,
                    cols: size.cols,
                    pixel_width: 0,
                    pixel_height: 0,
                }),
                Err(e) => !self@.contains_key(id@) && e == TerminalError::TerminalNotFound,
            },
    {
        match self.terminals.get(id) {
            Some(terminal) => Ok((terminal, pty_dimensions(size))),
            None => Err(TerminalError::TerminalNotFound),
        }
    }

    /// Takes the terminal `id` out of the registry. Dropping what was kept for
    /// it closes the pseudo-terminal.
    pub fn close_terminal(&mut self, id: &str) -> (r: Result<(), TerminalError>)
        ensures
            final(self)@ == old(self)@.remove(id@),
            r is Ok <==> old(self)@.contains_key(id@),
            r is Err ==> r == Err::<(), TerminalError>(TerminalError::TerminalNotFound),
    {
        if self.terminals.contains_key(id) {
            self.terminals.remove(id);
            Ok(())
        } else {
            assert(self@.remove(id@) =~= self@);
            Err(TerminalError::TerminalNotFound)
        }
    }
}

} // verus!
