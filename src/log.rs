//! An append-only message log: a header that counts the posts, and one record per
//! post at an address derived from its author and its number.

use crate::address::{derivation_view, derived, is_derived, le_bytes, seeds_view, to_le_bytes, Address, Namespace};
use vstd::prelude::*;
use vstd::string::*;
use vstd::utf8::encode_utf8;

verus! {

/// The most bytes that a message's content may take.
pub const MAX_CONTENT_BYTES: usize = 280;

/// The log header: how many messages were posted, and who created the log.
#[derive(Clone, Copy, Debug)]
pub struct GlobalState {
    pub message_count: u64,
    pub authority: Address,
}

/// One posted message; never changed once written.
#[derive(Debug)]
pub struct Message {
    pub id: u64,
    pub author: Address,
    pub content: String,
    pub timestamp: i64,
}

/// The accounts that create a log: the header's address, the creating
/// authority, and the program that owns the log.
#[derive(Clone, Copy, Debug)]
pub struct Initialize {
    pub global_state: Address,
    pub authority: Address,
    pub authority_signed: bool,
    pub program_id: Address,
}

/// The accounts of a post: the header and its address, the address of the new
/// record, the author, and the program that owns the log.
#[derive(Clone, Copy, Debug)]
pub struct PostMessage {
    pub global_address: Address,
    pub global_state: GlobalState,
    pub message: Address,
    pub author: Address,
    pub author_signed: bool,
    pub program_id: Address,
}

#[derive(Clone, Copy, Debug, PartialEq, Eq, Structural)]
pub enum MessageError {
    /// The content takes more than 280 bytes.
    MessageTooLong,
    /// The content holds only whitespace.
    EmptyMessage,
    /// The message counter is exhausted.
    Overflow,
    /// The required signature is missing.
    Unauthorized,
    /// A supplied address is not the one derived for it.
    AddressMismatch,
}

/// Characters with Unicode's White_Space property.
pub open spec fn is_white_space(c: char) -> bool {
    let u = c as u32;
    (0x09 <= u <= 0x0d) || u == 0x20 || u == 0x85 || u == 0xa0 || u == 0x1680
        || (0x2000 <= u <= 0x200a) || u == 0x2028 || u == 0x2029 || u == 0x202f
        || u == 0x205f || u == 0x3000
}

/// Relies on `char::is_whitespace`: true exactly for the characters with the
/// White_Space property.
#[verifier::external_body]
fn char_is_whitespace(c: char) -> (r: bool)
    ensures
        r == is_white_space(c),
{
    c.is_whitespace()
}

/// Content that is empty once leading and trailing whitespace is trimmed.
pub open spec fn is_blank(s: Seq<char>) -> bool {
    forall|i: int| 0 <= i < s.len() ==> is_white_space(#[trigger] s[i])
}

/// Whether `s` is empty once leading and trailing whitespace is trimmed.
pub fn is_blank_str(s: &str) -> (r: bool)
    ensures
        r == is_blank(s@),
{
    let n = s.unicode_len();
    let mut i: usize = 0;
    while i < n
        invariant
            n == s@.len(),
            i <= n,
            forall|j: int| 0 <= j < i ==> is_white_space(#[trigger] s@[j]),
        decreases n - i,
    {
        if !char_is_whitespace(s.get_char(i)) {
            return false;
        }
        i = i + 1;
    }
    true
}

/// Why creating a log with the accounts `ctx` is refused; `None` when it goes
/// through.
pub open spec fn initialize_error(ctx: Initialize) -> Option<MessageError> {
    if !ctx.authority_signed {
        Some(MessageError::Unauthorized)
    } else if !is_derived(Namespace::Global, seq![], ctx.program_id@, ctx.global_state@) {
        Some(MessageError::AddressMismatch)
    } else {
        None
    }
}

/// The address and bump seed of the log header.
pub fn global_address(program_id: &Address) -> (r: Option<(Address, u8)>)
    ensures
        derivation_view(r) == derived(Namespace::Global, seq![], program_id@),
{
    let components: Vec<Vec<u8>> = Vec::new();
    assert(seeds_view(components@) =~= seq![]);
    crate::address::derive(Namespace::Global, &components, program_id)
}

fn check_global_address(program_id: &Address, global: &Address) -> (r: bool)
    ensures
        r == is_derived(Namespace::Global, seq![], program_id@, global@),
{
    match global_address(program_id) {
        Some((a, _)) => a == *global,
        None => false,
    }
}

/// Creates an empty log owned by the signing authority.
pub fn initialize(ctx: &Initialize) -> (r: Result<GlobalState, MessageError>)
    ensures
        match r {
            Ok(state) => initialize_error(*ctx) is None && state == (GlobalState {
                message_count: 0,
                authority: ctx.authority,
            }),
            Err(e) => initialize_error(*ctx) == Some(e),
        },
{
    if !ctx.authority_signed {
        return Err(MessageError::Unauthorized);
    }
    if !check_global_address(&ctx.program_id, &ctx.global_state) {
        return Err(MessageError::AddressMismatch);
    }
    Ok(GlobalState { message_count: 0, authority: ctx.authority })
}

/// The seeds that follow the `message` tag: the author's key, then the
/// message's number in eight little-endian bytes.
pub open spec fn message_components(author: Address, id: u64) -> Seq<Seq<u8>> {
    seq![author@, le_bytes(id)]
}

/// The address and bump seed of the record of message number `id` by `author`.
pub fn message_address(author: &Address, id: u64, program_id: &Address) -> (r: Option<(Address, u8)>)
    ensures
        derivation_view(r) == derived(Namespace::Message, message_components(*author, id), program_id@),
{
    let components: Vec<Vec<u8>> = vec![author.to_vec(), to_le_bytes(id)];
    assert(seeds_view(components@) =~= message_components(*author, id));
    crate::address::derive(Namespace::Message, &components, program_id)
}

fn check_message_address(author: &Address, id: u64, program_id: &Address, message: &Address) -> (r: bool)
    ensures
        r == is_derived(Namespace::Message, message_components(*author, id), program_id@, message@),
{
    match message_address(author, id, program_id) {
        Some((a, _)) => a == *message,
        None => false,
    }
}

/// Why posting `content` with the accounts `ctx` is refused, checked in this
/// order; `None` when it goes through.
pub open spec fn post_error(ctx: PostMessage, content: Seq<char>) -> Option<MessageError> {
    if !ctx.author_signed {
        Some(MessageError::Unauthorized)
    } else if !is_derived(Namespace::Global, seq![], ctx.program_id@, ctx.global_address@) {
        Some(MessageError::AddressMismatch)
    } else if !is_derived(
        Namespace::Message,
        message_components(ctx.author, ctx.global_state.message_count),
        ctx.program_id@,
        ctx.message@,
    ) {
        Some(MessageError::AddressMismatch)
    } else if encode_utf8(content).len() > MAX_CONTENT_BYTES {
        Some(MessageError::MessageTooLong)
    } else if is_blank(content) {
        Some(MessageError::EmptyMessage)
    } else if ctx.global_state.message_count == u64::MAX {
        Some(MessageError::Overflow)
    } else {
        None
    }
}

/// `message` was posted on the header `pre`, which became `post`: it took the
/// header's count as its number, and the count went up by one.
pub open spec fn posted(pre: GlobalState, message: Message, post: GlobalState) -> bool {
    &&& message.id == pre.message_count
    &&& post.message_count == pre.message_count + 1
    &&& post.authority == pre.authority
}

/// Appends a message by the signing author, numbered by the header's count, and
/// advances the count; all or nothing.
pub fn post_message(ctx: &mut PostMessage, content: String, timestamp: i64) -> (r: Result<Message, MessageError>)
    ensures
        match r {
            Ok(message) => {
                &&& post_error(*old(ctx), content@) is None
                &&& posted(old(ctx).global_state, message, final(ctx).global_state)
                &&& *final(ctx) == (PostMessage {
                    global_state: GlobalState {
                        message_count: (old(ctx).global_state.message_count + 1) as u64,
                        ..old(ctx).global_state
                    },
                    ..*old(ctx)
                })
                &&& message.author == old(ctx).author
                &&& message.content@ == content@
                &&& message.timestamp == timestamp
            },
            Err(e) => post_error(*old(ctx), content@) == Some(e) && *final(ctx) == *old(ctx),
        },
{
    if !ctx.author_signed {
        return Err(MessageError::Unauthorized);
    }
    if !check_global_address(&ctx.program_id, &ctx.global_address) {
        return Err(MessageError::AddressMismatch);
    }
    if !check_message_address(&ctx.author, ctx.global_state.message_count, &ctx.program_id, &ctx.message) {
        return Err(MessageError::AddressMismatch);
    }
    if content.as_str().as_bytes().len() > MAX_CONTENT_BYTES {
        return Err(MessageError::MessageTooLong);
    }
    if is_blank_str(content.as_str()) {
        return Err(MessageError::EmptyMessage);
    }
    let next = match ctx.global_state.message_count.checked_add(1) {
        Some(n) => n,
        None => return Err(MessageError::Overflow),
    };
    let id = ctx.global_state.message_count;
    ctx.global_state.message_count = next;
    Ok(Message { id, author: ctx.author, content, timestamp })
}

/// Messages posted one after another on a fresh log are numbered 0, 1, 2, ... in
/// the order of posting, whoever wrote them, and the count ends at their number.
pub proof fn lemma_post_ids_consecutive(states: Seq<GlobalState>, messages: Seq<Message>)
    requires
        states.len() == messages.len() + 1,
        states[0].message_count == 0,
        forall|i: int| 0 <= i < messages.len() ==> posted(states[i], #[trigger] messages[i], states[i + 1]),
    ensures
        forall|i: int| 0 <= i < messages.len() ==> #[trigger] messages[i].id == i,
        states.last().message_count == messages.len(),
    decreases messages.len(),
{
    if messages.len() > 0 {
        let n = messages.len() - 1;
        lemma_post_ids_consecutive(states.drop_last(), messages.drop_last());
        assert(posted(states[n], messages[n], states[n + 1]));
        assert(states.drop_last().last() == states[n]);
        assert forall|i: int| 0 <= i < messages.len() implies #[trigger] messages[i].id == i by {
            if i < n {
                assert(messages.drop_last()[i] == messages[i]);
            }
        }
    }
}

} // verus!
