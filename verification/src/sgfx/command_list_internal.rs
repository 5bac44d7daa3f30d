//! The growable command list the graphics library builds.

use vstd::prelude::*;
use crate::sdk::command_list::{CommandListBuilder, COMMANDLIST_HEADER_LENGTH};

verus! {

/// A finished command list: header and commands.
pub struct CommandListInternal {
    pub command_bytes: Vec<u8>,
}

/// A command list that grows as commands are pushed.
pub struct CommandListBuilderInternal {
    command_bytes: Vec<u8>,
}

impl CommandListBuilderInternal {
    /// The bytes held, header included.
    pub closed spec fn bytes(&self) -> Seq<u8> {
        self.command_bytes@
    }

    /// An empty list: eight zero header bytes.
    pub fn new() -> (r: Self)
        ensures
            r.bytes() == seq![0u8, 0, 0, 0, 0, 0, 0, 0],
            r.inv(),
    {
        let r = Self { command_bytes: vec![0u8, 0, 0, 0, 0, 0, 0, 0] };
        proof { assert(r.command_bytes@ =~= seq![0u8, 0, 0, 0, 0, 0, 0, 0]); }
        r
    }

    /// The list as it stands, the header left as it is; the builder starts a new empty list.
    pub fn finish_and_reset(&mut self) -> (r: CommandListInternal)
        ensures
            r.command_bytes@ == old(self).bytes(),
            final(self).bytes() == seq![0u8, 0, 0, 0, 0, 0, 0, 0],
            final(self).inv(),
    {
        let mut new_self = Self::new();
        core::mem::swap(self, &mut new_self);
        CommandListInternal { command_bytes: new_self.command_bytes }
    }
}

impl CommandListBuilder<crate::sdk::gpu::GpuCommands> for CommandListBuilderInternal {
    /// The header is in place.
    closed spec fn inv(&self) -> bool {
        self.command_bytes@.len() >= COMMANDLIST_HEADER_LENGTH
    }

    closed spec fn written(&self) -> Seq<u8> {
        self.command_bytes@.subrange(COMMANDLIST_HEADER_LENGTH as int, self.command_bytes@.len() as int)
    }

    /// The list grows without bound; its room is counted as what a `usize` length leaves.
    closed spec fn room(&self) -> nat {
        (usize::MAX - self.command_bytes@.len()) as nat
    }

    fn push_command(&mut self, command_bytes: &[u8]) -> (r: bool) {
        let ghost before = self.command_bytes@;
        let mut k: usize = 0;
        while k < command_bytes.len()
            invariant
                k <= command_bytes@.len(),
                self.command_bytes@ == before + command_bytes@.take(k as int),
            decreases command_bytes@.len() - k,
        {
            self.command_bytes.push(command_bytes[k]);
            proof { assert(command_bytes@.take(k + 1) =~= command_bytes@.take(k as int).push(command_bytes@[k as int])); }
            k = k + 1;
        }
        proof {
            assert(command_bytes@.take(k as int) =~= command_bytes@);
            assert(self.command_bytes@.subrange(8, self.command_bytes@.len() as int)
                =~= before.subrange(8, before.len() as int) + command_bytes@);
        }
        true
    }
}

} // verus!
