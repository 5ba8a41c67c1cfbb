use vstd::prelude::*;
use crate::random::os_random;

verus! {

/// The size of the blocks in which a file is overwritten.
pub const BLOCK_SIZE: usize = 4096;

/// The length of the block to write next, for a file of `len` bytes of which
/// `written` are overwritten already: a whole block, or what is left of the
/// file where that is less; nothing once the file is covered.
pub open spec fn block_len(len: u64, written: u64) -> nat {
    if written >= len {
        0
    } else if len - written < BLOCK_SIZE {
        (len - written) as nat
    } else {
        BLOCK_SIZE as nat
    }
}

/// How many bytes of a file of `len` bytes are overwritten after `blocks`
/// blocks, each written where the one before ended.
pub open spec fn covered(len: u64, blocks: nat) -> nat
    decreases blocks,
{
    if blocks == 0 {
        0
    } else {
        let before = covered(len, (blocks - 1) as nat);
        if before <= len {
            before + block_len(len, before as u64)
        } else {
            before
        }
    }
}

/// One step of overwriting a file.
pub enum Overwrite {
    /// The whole length is overwritten: sync and remove the file.
    Done,
    /// Write these random bytes at the current offset.
    Block(Vec<u8>),
    /// No random bytes could be had: stop overwriting and remove the file.
    Unavailable,
}

/// Decides the next step of overwriting a file of `len` bytes of which
/// `written` are done, and draws the random bytes for it.
pub fn next_overwrite(len: u64, written: u64) -> (r: Overwrite)
    ensures
        written >= len <==> r is Done,
        r matches Overwrite::Block(bytes) ==> bytes@.len() == block_len(len, written)
            && bytes@.len() > 0 && written + bytes@.len() <= len,
{
    if written >= len {
        return Overwrite::Done;
    }
    let left: u64 = len - written;
    let n: usize = if left < BLOCK_SIZE as u64 {
        left as usize
    } else {
        BLOCK_SIZE
    };
    match os_random(n) {
        Some(bytes) => Overwrite::Block(bytes),
        None => Overwrite::Unavailable,
    }
}

/// What to do with one entry of a tree that is being erased. The number is the
/// entry's place in the listing.
#[derive(Clone, Copy, Debug, PartialEq, Eq, Structural)]
pub enum EraseStep {
    /// Overwrite the file and remove it.
    EraseFile(usize),
    /// Remove the directory, which is empty by now.
    RemoveDir(usize),
}

/// The step for the entry at a place of the listing.
pub open spec fn step_for(is_dir: Seq<bool>, index: int) -> EraseStep {
    if is_dir[index] {
        EraseStep::RemoveDir(index as usize)
    } else {
        EraseStep::EraseFile(index as usize)
    }
}

/// The order in which a tree is erased, for a listing that names every
/// directory before what it holds: the listing backwards, so that a directory
/// comes up only after everything inside it.
pub open spec fn erase_plan_spec(is_dir: Seq<bool>) -> Seq<EraseStep> {
    Seq::new(is_dir.len(), |k: int| step_for(is_dir, is_dir.len() - 1 - k))
}

/// Plans the erasure of a tree from its listing, which says for each entry
/// whether it is a directory and names every directory before its contents.
/// Every entry gets one step, a file its erasure and a directory its removal,
/// and the steps run through the listing backwards.
pub fn erase_plan(is_dir: &Vec<bool>) -> (plan: Vec<EraseStep>)
    ensures
        plan@ == erase_plan_spec(is_dir@),
{
    let n = is_dir.len();
    let mut plan: Vec<EraseStep> = Vec::new();
    let mut k: usize = 0;
    while k < n
        invariant
            n == is_dir@.len(),
            k <= n,
            plan@.len() == k,
            forall|j: int| 0 <= j < k ==> plan@[j] == step_for(is_dir@, n - 1 - j),
        decreases n - k,
    {
        let index: usize = n - 1 - k;
        if is_dir[index] {
            plan.push(EraseStep::RemoveDir(index));
        } else {
            plan.push(EraseStep::EraseFile(index));
        }
        k = k + 1;
    }
    assert(plan@ =~= erase_plan_spec(is_dir@));
    plan
}

/// In the plan, whatever the listing names later is handled earlier: so the
/// contents of a directory, which the listing names after it, are gone before
/// the directory is removed, and the root goes last.
pub proof fn lemma_contents_before_directory(is_dir: Seq<bool>, parent: int, child: int)
    requires
        0 <= parent < child < is_dir.len(),
    ensures
        erase_plan_spec(is_dir).len() == is_dir.len(),
        erase_plan_spec(is_dir)[is_dir.len() - 1 - child] == step_for(is_dir, child),
        erase_plan_spec(is_dir)[is_dir.len() - 1 - parent] == step_for(is_dir, parent),
        is_dir.len() - 1 - child < is_dir.len() - 1 - parent,
{
}

/// The blocks never overrun the file, and leave no gap: after `blocks` blocks
/// the first `min(len, 4096 * blocks)` bytes are overwritten.
pub proof fn lemma_covered(len: u64, blocks: nat)
    ensures
        covered(len, blocks) == if len <= BLOCK_SIZE * blocks {
            len as nat
        } else {
            (BLOCK_SIZE * blocks) as nat
        },
    decreases blocks,
{
    if blocks > 0 {
        lemma_covered(len, (blocks - 1) as nat);
    }
}

/// Once enough blocks are written to span the length, every byte of the file
/// is overwritten.
pub proof fn lemma_whole_file_covered(len: u64, blocks: nat)
    requires
        BLOCK_SIZE * blocks >= len,
    ensures
        covered(len, blocks) == len,
        block_len(len, covered(len, blocks) as u64) == 0,
{
    lemma_covered(len, blocks);
}

} // verus!
