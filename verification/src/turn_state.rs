//! Identities and buffers of a running turn.
use vstd::prelude::*;

use crate::text::{decimal, has_prefix, push_decimal, texts};

verus! {

/// The 4-bit digit of a number at position `k`, counted from the lowest.
pub open spec fn nibble(value: nat, k: nat) -> nat
    decreases k,
{
    if k == 0 {
        value % 16
    } else {
        nibble(value / 16, (k - 1) as nat)
    }
}

/// The lower-case hexadecimal digit for a number below 16.
pub open spec fn hex_digit(n: nat) -> char {
    if n < 10 {
        (48 + n) as u8 as char
    } else {
        (97 + (n - 10)) as u8 as char
    }
}

/// How many hexadecimal digits stand before position `i` of a hyphenated UUID.
pub open spec fn digits_before(i: int) -> int {
    if i <= 8 {
        i
    } else if i <= 13 {
        i - 1
    } else if i <= 18 {
        i - 2
    } else if i <= 23 {
        i - 3
    } else {
        i - 4
    }
}

/// The hyphenated form of a UUID: 32 lower-case hexadecimal digits, highest first,
/// in groups of 8, 4, 4, 4 and 12.
pub open spec fn hyphenated(value: u128) -> Seq<char> {
    Seq::new(
        36,
        |i: int|
            if i == 8 || i == 13 || i == 18 || i == 23 {
                '-'
            } else {
                hex_digit(nibble(value as nat, (31 - digits_before(i)) as nat))
            },
    )
}

/// Whether a 128-bit value is a random UUID of version 4 by its version and
/// variant bits.
pub open spec fn is_version_4(value: u128) -> bool {
    &&& nibble(value as nat, 19) == 4
    &&& nibble(value as nat, 15) / 4 == 2
}

/// `uuid::Uuid::new_v4`, as its 128-bit value. The value is random; what holds of
/// every outcome is its version and variant.
#[verifier::external_body]
fn random_uuid() -> (r: u128)
    ensures
        is_version_4(r),
{
    uuid::Uuid::new_v4().as_u128()
}

/// The `Display` form of a `uuid::Uuid` with the given 128-bit value, which is its
/// hyphenated form.
#[verifier::external_body]
fn uuid_text(value: u128) -> (r: String)
    ensures
        r@ == hyphenated(value),
{
    uuid::Uuid::from_u128(value).to_string()
}

/// The simple form of a UUID: its 32 lower-case hexadecimal digits, highest first.
pub open spec fn simple_hex(value: u128) -> Seq<char> {
    Seq::new(32, |i: int| hex_digit(nibble(value as nat, (31 - i) as nat)))
}

/// The `Display` form of `uuid::Uuid::simple` for the given 128-bit value, which is
/// its simple form.
#[verifier::external_body]
fn uuid_simple_text(value: u128) -> (r: String)
    ensures
        r@ == simple_hex(value),
{
    uuid::Uuid::from_u128(value).simple().to_string()
}

/// A new random identity in simple form.
pub fn fresh_simple_id() -> (r: String)
    ensures
        exists|value: u128| is_version_4(value) && r@ == #[trigger] simple_hex(value),
{
    uuid_simple_text(random_uuid())
}

spec fn pow16(n: nat) -> nat
    decreases n,
{
    if n == 0 {
        1
    } else {
        16 * pow16((n - 1) as nat)
    }
}

proof fn lemma_nibbles_determine(a: nat, b: nat, n: nat)
    requires
        a < pow16(n),
        b < pow16(n),
        forall|k: nat| k < n ==> #[trigger] nibble(a, k) == nibble(b, k),
    ensures
        a == b,
    decreases n,
{
    if n > 0 {
        assert(nibble(a, 0) == nibble(b, 0));
        assert forall|k: nat| k < n - 1 implies #[trigger] nibble(a / 16, k) == nibble(b / 16, k) by {
            assert(nibble(a, k + 1) == nibble(b, k + 1));
        }
        lemma_nibbles_determine(a / 16, b / 16, (n - 1) as nat);
    }
}

proof fn lemma_nibble_range(value: nat, k: nat)
    ensures
        nibble(value, k) < 16,
    decreases k,
{
    if k > 0 {
        lemma_nibble_range(value / 16, (k - 1) as nat);
    }
}

proof fn lemma_hex_digit_code(n: nat)
    requires
        n < 16,
    ensures
        hex_digit(n) as u32 == (if n < 10 {
            48 + n
        } else {
            87 + n
        }),
{
    if n < 10 {
        let b = (48 + n) as u8;
        assert(b as char as u32 == b);
    } else {
        let b = (97 + (n - 10)) as u8;
        assert(b as char as u32 == b);
    }
}

/// Two identities with the same text are the same.
pub proof fn hyphenated_is_injective(a: u128, b: u128)
    requires
        hyphenated(a) == hyphenated(b),
    ensures
        a == b,
{
    assert forall|k: nat| k < 32 implies #[trigger] nibble(a as nat, k) == nibble(b as nat, k) by {
        let d = 31 - k;
        let i: int = if d < 8 {
            d
        } else if d < 12 {
            d + 1
        } else if d < 16 {
            d + 2
        } else if d < 20 {
            d + 3
        } else {
            d + 4
        };
        assert(digits_before(i) == d);
        assert((31 - digits_before(i)) as nat == k);
        assert(hyphenated(a)[i] == hex_digit(nibble(a as nat, k)));
        assert(hyphenated(b)[i] == hex_digit(nibble(b as nat, k)));
        lemma_nibble_range(a as nat, k);
        lemma_nibble_range(b as nat, k);
        lemma_hex_digit_code(nibble(a as nat, k));
        lemma_hex_digit_code(nibble(b as nat, k));
    }
    reveal_with_fuel(pow16, 33);
    assert(pow16(32) == 0x1_0000_0000_0000_0000_0000_0000_0000_0000);
    lemma_nibbles_determine(a as nat, b as nat, 32);
}

/// Stable identity for a persisted or running agent session.
#[derive(Debug, Clone)]
pub struct SessionId(String);

/// Stable identity for a model tool call.
#[derive(Debug, Clone)]
pub struct ToolCallId(String);

impl View for SessionId {
    type V = Seq<char>;

    closed spec fn view(&self) -> Seq<char> {
        self.0@
    }
}

impl View for ToolCallId {
    type V = Seq<char>;

    closed spec fn view(&self) -> Seq<char> {
        self.0@
    }
}

impl SessionId {
    /// A new random identity.
    pub fn new() -> (r: Self)
        ensures
            exists|value: u128| is_version_4(value) && r@ == #[trigger] hyphenated(value),
    {
        SessionId(uuid_text(random_uuid()))
    }

    /// The identity with the given text.
    pub fn from_string(value: String) -> (r: Self)
        ensures
            r@ == value@,
    {
        SessionId(value)
    }

    /// The text of the identity.
    pub fn as_str(&self) -> (r: &str)
        ensures
            r@ == self@,
    {
        self.0.as_str()
    }
}

impl ToolCallId {
    /// A new random identity.
    pub fn new() -> (r: Self)
        ensures
            exists|value: u128| is_version_4(value) && r@ == #[trigger] hyphenated(value),
    {
        ToolCallId(uuid_text(random_uuid()))
    }

    /// The identity with the given text.
    pub fn from_string(value: String) -> (r: Self)
        ensures
            r@ == value@,
    {
        ToolCallId(value)
    }

    /// The text of the identity.
    pub fn as_str(&self) -> (r: &str)
        ensures
            r@ == self@,
    {
        self.0.as_str()
    }
}

/// Identifier for one user prompt → final assistant response cycle.
#[derive(Debug, Clone, Copy, PartialEq, Eq, Structural, Hash)]
pub struct TurnId(u128);

/// Identifier for one LLM invocation within a turn.
#[derive(Debug, Clone, Copy, PartialEq, Eq, Structural, Hash)]
pub struct StepId(u128);

impl View for TurnId {
    type V = u128;

    closed spec fn view(&self) -> u128 {
        self.0
    }
}

impl View for StepId {
    type V = u128;

    closed spec fn view(&self) -> u128 {
        self.0
    }
}

impl TurnId {
    /// A new random identifier.
    pub fn new() -> (r: Self)
        ensures
            is_version_4(r@),
    {
        TurnId(random_uuid())
    }

    /// The text of the identifier.
    pub fn text(&self) -> (r: String)
        ensures
            r@ == hyphenated(self@),
    {
        uuid_text(self.0)
    }
}

impl StepId {
    /// A new random identifier.
    pub fn new() -> (r: Self)
        ensures
            is_version_4(r@),
    {
        StepId(random_uuid())
    }

    /// The text of the identifier.
    pub fn text(&self) -> (r: String)
        ensures
            r@ == hyphenated(self@),
    {
        uuid_text(self.0)
    }
}

impl Default for SessionId {
    fn default() -> (r: Self)
        ensures
            exists|value: u128| is_version_4(value) && r@ == #[trigger] hyphenated(value),
    {
        SessionId::new()
    }
}

impl Default for ToolCallId {
    fn default() -> (r: Self)
        ensures
            exists|value: u128| is_version_4(value) && r@ == #[trigger] hyphenated(value),
    {
        ToolCallId::new()
    }
}

impl Default for TurnId {
    fn default() -> (r: Self)
        ensures
            is_version_4(r@),
    {
        TurnId::new()
    }
}

impl Default for StepId {
    fn default() -> (r: Self)
        ensures
            is_version_4(r@),
    {
        StepId::new()
    }
}

/// Tracks an in-flight turn (one active turn per agent).
#[derive(Debug)]
pub struct TurnState {
    pub turn_id: TurnId,
    pub step: u32,
    pub step_id: Option<StepId>,
}

impl TurnState {
    /// A new turn before its first step.
    pub fn begin() -> (r: Self)
        ensures
            is_version_4(r.turn_id@),
            r.step == 0,
            r.step_id is None,
    {
        TurnState { turn_id: TurnId::new(), step: 0, step_id: None }
    }

    /// Moves on to the next step and gives its identifier.
    pub fn next_step_id(&mut self) -> (r: StepId)
        requires
            old(self).step < u32::MAX,
        ensures
            is_version_4(r@),
            final(self).turn_id == old(self).turn_id,
            final(self).step == old(self).step + 1,
            final(self).step_id == Some(r),
    {
        self.step = self.step + 1;
        let step_id = StepId::new();
        self.step_id = Some(step_id);
        step_id
    }
}

/// How many messages leave a buffer at a time.
#[derive(Debug, Clone, Copy, PartialEq, Eq, Structural)]
pub enum QueueMode {
    OneAtATime,
    All,
}

impl Default for QueueMode {
    fn default() -> (r: Self)
        ensures
            r == QueueMode::OneAtATime,
    {
        QueueMode::OneAtATime
    }
}

/// How many of `len` waiting messages leave together in a mode.
pub open spec fn drain_size(mode: QueueMode, len: nat) -> nat {
    match mode {
        QueueMode::OneAtATime => 1,
        QueueMode::All => len,
    }
}

/// Takes the first `count` strings out of a list.
fn take_front(pending: &mut Vec<String>, count: usize) -> (r: Vec<String>)
    requires
        count <= old(pending).len(),
    ensures
        r@ == old(pending)@.take(count as int),
        final(pending)@ == old(pending)@.skip(count as int),
{
    let rest = pending.split_off(count);
    let mut taken = rest;
    core::mem::swap(&mut taken, pending);
    taken
}

/// Buffered steer messages injected between model steps.
#[derive(Debug)]
pub struct SteerBuffer {
    pending: Vec<String>,
    mode: QueueMode,
}

impl Default for SteerBuffer {
    fn default() -> (r: Self)
        ensures
            r@ == Seq::<Seq<char>>::empty(),
            r.queue_mode() == QueueMode::OneAtATime,
    {
        SteerBuffer { pending: Vec::new(), mode: QueueMode::OneAtATime }
    }
}

impl View for SteerBuffer {
    type V = Seq<Seq<char>>;

    closed spec fn view(&self) -> Seq<Seq<char>> {
        texts(self.pending@)
    }
}

impl SteerBuffer {
    /// How many messages leave the buffer at a time.
    pub closed spec fn queue_mode(&self) -> QueueMode {
        self.mode
    }

    /// Adds a message behind those that wait.
    pub fn push(&mut self, text: String)
        ensures
            final(self)@ == old(self)@.push(text@),
            final(self).queue_mode() == old(self).queue_mode(),
    {
        self.pending.push(text);
    }

    pub fn is_empty(&self) -> (r: bool)
        ensures
            r == (self@.len() == 0),
    {
        self.pending.is_empty()
    }

    pub fn len(&self) -> (r: usize)
        ensures
            r == self@.len(),
    {
        self.pending.len()
    }

    /// Takes out the messages that leave together, oldest first. In one-at-a-time
    /// mode a message must be waiting.
    pub fn take_all(&mut self) -> (r: Vec<String>)
        requires
            old(self).queue_mode() is OneAtATime ==> old(self)@.len() > 0,
        ensures
            texts(r@) == old(self)@.take(drain_size(old(self).queue_mode(), old(self)@.len()) as int),
            final(self)@ == old(self)@.skip(
                drain_size(old(self).queue_mode(), old(self)@.len()) as int,
            ),
            final(self).queue_mode() == old(self).queue_mode(),
    {
        let count: usize = match self.mode {
            QueueMode::OneAtATime => 1,
            QueueMode::All => self.pending.len(),
        };
        take_front(&mut self.pending, count)
    }

    /// Drops every waiting message.
    pub fn clear(&mut self)
        ensures
            final(self)@ == Seq::<Seq<char>>::empty(),
            final(self).queue_mode() == old(self).queue_mode(),
    {
        self.pending.clear();
    }

    pub fn set_mode(&mut self, mode: QueueMode)
        ensures
            final(self)@ == old(self)@,
            final(self).queue_mode() == mode,
    {
        self.mode = mode;
    }
}

/// Follow-up messages injected only when a turn would otherwise settle.
#[derive(Debug)]
pub struct FollowUpBuffer {
    pending: Vec<String>,
    mode: QueueMode,
}

impl Default for FollowUpBuffer {
    fn default() -> (r: Self)
        ensures
            r@ == Seq::<Seq<char>>::empty(),
            r.queue_mode() == QueueMode::OneAtATime,
    {
        FollowUpBuffer { pending: Vec::new(), mode: QueueMode::OneAtATime }
    }
}

impl View for FollowUpBuffer {
    type V = Seq<Seq<char>>;

    closed spec fn view(&self) -> Seq<Seq<char>> {
        texts(self.pending@)
    }
}

impl FollowUpBuffer {
    /// How many messages leave the buffer at a time.
    pub closed spec fn queue_mode(&self) -> QueueMode {
        self.mode
    }

    /// Adds a message behind those that wait.
    pub fn push(&mut self, text: String)
        ensures
            final(self)@ == old(self)@.push(text@),
            final(self).queue_mode() == old(self).queue_mode(),
    {
        self.pending.push(text);
    }

    pub fn is_empty(&self) -> (r: bool)
        ensures
            r == (self@.len() == 0),
    {
        self.pending.is_empty()
    }

    pub fn len(&self) -> (r: usize)
        ensures
            r == self@.len(),
    {
        self.pending.len()
    }

    /// Takes out the messages that leave together, oldest first. In one-at-a-time
    /// mode a message must be waiting.
    pub fn take_all(&mut self) -> (r: Vec<String>)
        requires
            old(self).queue_mode() is OneAtATime ==> old(self)@.len() > 0,
        ensures
            texts(r@) == old(self)@.take(drain_size(old(self).queue_mode(), old(self)@.len()) as int),
            final(self)@ == old(self)@.skip(
                drain_size(old(self).queue_mode(), old(self)@.len()) as int,
            ),
            final(self).queue_mode() == old(self).queue_mode(),
    {
        let count: usize = match self.mode {
            QueueMode::OneAtATime => 1,
            QueueMode::All => self.pending.len(),
        };
        take_front(&mut self.pending, count)
    }

    /// Drops every waiting message.
    pub fn clear(&mut self)
        ensures
            final(self)@ == Seq::<Seq<char>>::empty(),
            final(self).queue_mode() == old(self).queue_mode(),
    {
        self.pending.clear();
    }

    pub fn set_mode(&mut self, mode: QueueMode)
        ensures
            final(self)@ == old(self)@,
            final(self).queue_mode() == mode,
    {
        self.mode = mode;
    }
}

/// The batches in which waiting messages leave a buffer, if nothing is added.
pub open spec fn batches(mode: QueueMode, waiting: Seq<Seq<char>>) -> Seq<Seq<Seq<char>>>
    decreases waiting.len(),
{
    if waiting.len() == 0 {
        Seq::empty()
    } else {
        let n = drain_size(mode, waiting.len()) as int;
        seq![waiting.take(n)] + batches(mode, waiting.skip(n))
    }
}

/// The messages of some batches, one batch after the other.
pub open spec fn in_turn(parts: Seq<Seq<Seq<char>>>) -> Seq<Seq<char>>
    decreases parts.len(),
{
    if parts.len() == 0 {
        Seq::empty()
    } else {
        parts[0] + in_turn(parts.drop_first())
    }
}

/// Every message that waits leaves the buffer exactly once and in the order in which
/// it came: alone in one-at-a-time mode, all together otherwise.
pub proof fn messages_leave_once_in_order(mode: QueueMode, waiting: Seq<Seq<char>>)
    ensures
        in_turn(batches(mode, waiting)) == waiting,
        mode is OneAtATime ==> batches(mode, waiting).len() == waiting.len(),
        mode is All && waiting.len() > 0 ==> batches(mode, waiting).len() == 1,
    decreases waiting.len(),
{
    if waiting.len() > 0 {
        let n = drain_size(mode, waiting.len()) as int;
        let rest = batches(mode, waiting.skip(n));
        let all = batches(mode, waiting);
        messages_leave_once_in_order(mode, waiting.skip(n));
        assert(all[0] == waiting.take(n));
        assert(all.drop_first() == rest);
        assert(waiting.take(n) + waiting.skip(n) == waiting);
    }
}

/// Why a turn could not start, be steered, or end.
#[derive(Debug, Clone)]
pub enum TurnError {
    /// A turn is already in progress.
    AgentBusy,
    /// No turn is in progress.
    NoActiveTurn,
    /// The turn was cancelled.
    Aborted,
    /// Something that the turn depends on failed, with its message.
    Failed(String),
}

/// The message of a turn error.
pub open spec fn error_text(error: TurnError) -> Seq<char> {
    match error {
        TurnError::AgentBusy =>
            "agent busy: a turn is already in progress; use steer() or follow_up(), or wait for the turn to finish"@,
        TurnError::NoActiveTurn => "no turn in progress; use prompt() to start a new turn"@,
        TurnError::Aborted => "turn aborted"@,
        TurnError::Failed(message) => message@,
    }
}

impl TurnError {
    /// The message of the error.
    pub fn message(&self) -> (r: String)
        ensures
            r@ == error_text(*self),
    {
        match self {
            TurnError::AgentBusy =>
                "agent busy: a turn is already in progress; use steer() or follow_up(), or wait for the turn to finish".to_string(),
            TurnError::NoActiveTurn =>
                "no turn in progress; use prompt() to start a new turn".to_string(),
            TurnError::Aborted => "turn aborted".to_string(),
            TurnError::Failed(message) => message.clone(),
        }
    }
}

/// The error of starting a turn while one is in progress.
pub fn agent_busy_error() -> (r: TurnError)
    ensures
        r == TurnError::AgentBusy,
{
    TurnError::AgentBusy
}

/// The error of steering when no turn is in progress.
pub fn steer_requires_active_turn() -> (r: TurnError)
    ensures
        r == TurnError::NoActiveTurn,
{
    TurnError::NoActiveTurn
}

/// The error of a cancelled turn.
pub fn aborted_error() -> (r: TurnError)
    ensures
        r == TurnError::Aborted,
{
    TurnError::Aborted
}

/// The notice of a turn that used up its steps.
pub open spec fn max_turns_text(max_steps: u32) -> Seq<char> {
    "[notice] Reached max_turns ("@ + decimal(max_steps as nat)
        + ") without a final answer. Send a follow-up to continue, or raise max turns / use Unlimited."@
}

/// The notice of a turn that used up its steps.
pub fn max_turns_notice(max_steps: u32) -> (r: String)
    ensures
        r@ == max_turns_text(max_steps),
{
    let mut out = "[notice] Reached max_turns (".to_string();
    push_decimal(&mut out, max_steps as u128);
    out.append(
        ") without a final answer. Send a follow-up to continue, or raise max turns / use Unlimited.",
    );
    out
}

/// Starts a turn unless one is in progress.
pub fn begin_turn(active: &mut Option<TurnState>) -> (r: Result<(), TurnError>)
    ensures
        match *old(active) {
            Some(_) => r == Err::<(), TurnError>(TurnError::AgentBusy) && *final(active) == *old(active),
            None => r == Ok::<(), TurnError>(()) && (*final(active) matches Some(turn)
                && is_version_4(turn.turn_id@) && turn.step == 0 && turn.step_id is None),
        },
{
    if active.is_some() {
        return Err(agent_busy_error());
    }
    *active = Some(TurnState::begin());
    Ok(())
}

/// Ends the turn in progress, if there is one.
pub fn end_turn(active: &mut Option<TurnState>)
    ensures
        *final(active) is None,
{
    *active = None;
}

#[verifier::external_type_specification]
#[verifier::external_body]
pub struct ExCancellationToken(tokio_util::sync::CancellationToken);

/// `tokio_util::sync::CancellationToken::is_cancelled`. Nothing is claimed of the
/// result: other holders of the token may cancel it at any time.
pub assume_specification[ tokio_util::sync::CancellationToken::is_cancelled ](
    token: &tokio_util::sync::CancellationToken,
) -> (r: bool);

/// Whether cancellation was requested: what the token answers when it is asked.
/// Without a token it never is.
pub fn is_cancelled(cancel: Option<&tokio_util::sync::CancellationToken>) -> (r: bool)
    ensures
        match cancel {
            Some(token) => call_ensures(
                tokio_util::sync::CancellationToken::is_cancelled,
                (token,),
                r,
            ),
            None => !r,
        },
{
    match cancel.map(tokio_util::sync::CancellationToken::is_cancelled) {
        Some(answer) => answer,
        None => false,
    }
}

/// A steer message joins those that wait at the end, and none of them is lost.
pub proof fn steer_messages_join_at_the_end(buffer: &mut SteerBuffer, text: String)
    requires
        call_ensures(SteerBuffer::push, (buffer, text), ()),
    ensures
        final(buffer)@.len() == old(buffer)@.len() + 1,
        final(buffer)@.last() == text@,
        forall|i: int| 0 <= i < old(buffer)@.len() ==> final(buffer)@[i] == #[trigger] old(buffer)@[i],
        final(buffer).queue_mode() == old(buffer).queue_mode(),
{
}

/// One at a time, the oldest steer message leaves alone; otherwise all leave together. What
/// leaves and what stays make up what waited, in order.
pub proof fn steer_messages_leave_oldest_first(buffer: &mut SteerBuffer, r: Vec<String>)
    requires
        call_ensures(SteerBuffer::take_all, (buffer,), r),
        old(buffer).queue_mode() is OneAtATime ==> old(buffer)@.len() > 0,
    ensures
        texts(r@) + final(buffer)@ == old(buffer)@,
        old(buffer).queue_mode() is OneAtATime ==> r@.len() == 1,
        old(buffer).queue_mode() is All ==> final(buffer)@.len() == 0,
        final(buffer).queue_mode() == old(buffer).queue_mode(),
{
    let n = drain_size(old(buffer).queue_mode(), old(buffer)@.len()) as int;
    assert(old(buffer)@.take(n) + old(buffer)@.skip(n) == old(buffer)@);
    assert(texts(r@).len() == r@.len());
}

/// Clearing drops every steer message, and a change of the mode none.
pub proof fn steer_messages_stay_until_taken_or_cleared(
    buffer: &mut SteerBuffer,
    mode: QueueMode,
    other: &mut SteerBuffer,
)
    requires
        call_ensures(SteerBuffer::set_mode, (buffer, mode), ()),
        call_ensures(SteerBuffer::clear, (other,), ()),
    ensures
        final(buffer)@ == old(buffer)@,
        final(buffer).queue_mode() == mode,
        final(other)@.len() == 0,
        final(other).queue_mode() == old(other).queue_mode(),
{
}

/// A follow-up joins those that wait at the end, and none of them is lost.
pub proof fn follow_ups_join_at_the_end(buffer: &mut FollowUpBuffer, text: String)
    requires
        call_ensures(FollowUpBuffer::push, (buffer, text), ()),
    ensures
        final(buffer)@.len() == old(buffer)@.len() + 1,
        final(buffer)@.last() == text@,
        forall|i: int| 0 <= i < old(buffer)@.len() ==> final(buffer)@[i] == #[trigger] old(buffer)@[i],
        final(buffer).queue_mode() == old(buffer).queue_mode(),
{
}

/// One at a time, the oldest follow-up leaves alone; otherwise all leave together. What
/// leaves and what stays make up what waited, in order.
pub proof fn follow_ups_leave_oldest_first(buffer: &mut FollowUpBuffer, r: Vec<String>)
    requires
        call_ensures(FollowUpBuffer::take_all, (buffer,), r),
        old(buffer).queue_mode() is OneAtATime ==> old(buffer)@.len() > 0,
    ensures
        texts(r@) + final(buffer)@ == old(buffer)@,
        old(buffer).queue_mode() is OneAtATime ==> r@.len() == 1,
        old(buffer).queue_mode() is All ==> final(buffer)@.len() == 0,
        final(buffer).queue_mode() == old(buffer).queue_mode(),
{
    let n = drain_size(old(buffer).queue_mode(), old(buffer)@.len()) as int;
    assert(old(buffer)@.take(n) + old(buffer)@.skip(n) == old(buffer)@);
    assert(texts(r@).len() == r@.len());
}

/// Clearing drops every follow-up, and a change of the mode none.
pub proof fn follow_ups_stay_until_taken_or_cleared(
    buffer: &mut FollowUpBuffer,
    mode: QueueMode,
    other: &mut FollowUpBuffer,
)
    requires
        call_ensures(FollowUpBuffer::set_mode, (buffer, mode), ()),
        call_ensures(FollowUpBuffer::clear, (other,), ()),
    ensures
        final(buffer)@ == old(buffer)@,
        final(buffer).queue_mode() == mode,
        final(other)@.len() == 0,
        final(other).queue_mode() == old(other).queue_mode(),
{
}

/// Steps are counted one by one within their turn, each under an identifier of its own.
pub proof fn steps_are_counted_one_by_one(turn: &mut TurnState, r: StepId)
    requires
        call_ensures(TurnState::next_step_id, (turn,), r),
        old(turn).step < u32::MAX,
    ensures
        final(turn).step == old(turn).step + 1,
        final(turn).turn_id == old(turn).turn_id,
        final(turn).step_id == Some(r),
{
}

/// Only one turn is active at a time: a second one is refused and leaves the first as it is,
/// and after a turn has ended the next one can begin, at step 0.
pub proof fn only_one_turn_is_active(
    active: &mut Option<TurnState>,
    r: Result<(), TurnError>,
    ended: &mut Option<TurnState>,
)
    requires
        call_ensures(begin_turn, (active,), r),
        call_ensures(end_turn, (ended,), ()),
    ensures
        *old(active) is Some ==> r == Err::<(), TurnError>(TurnError::AgentBusy) && *final(active)
            == *old(active),
        *old(active) is None ==> r is Ok && (*final(active) matches Some(turn) && turn.step == 0
            && turn.step_id is None),
        *final(ended) is None,
{
}

/// The errors of a turn say what they are about: a busy agent is busy, an aborted turn is
/// aborted, and a failure is told in its own words.
pub proof fn errors_say_what_happened(message: String)
    ensures
        has_prefix(error_text(TurnError::AgentBusy), "agent busy"@),
        has_prefix(error_text(TurnError::NoActiveTurn), "no turn in progress"@),
        error_text(TurnError::Aborted) == "turn "@ + "aborted"@,
        error_text(TurnError::Failed(message)) == message@,
{
    reveal_strlit("agent busy");
    reveal_strlit(
        "agent busy: a turn is already in progress; use steer() or follow_up(), or wait for the turn to finish",
    );
    reveal_strlit("no turn in progress");
    reveal_strlit("no turn in progress; use prompt() to start a new turn");
    reveal_strlit("turn ");
    reveal_strlit("aborted");
    reveal_strlit("turn aborted");
    assert(error_text(TurnError::AgentBusy).subrange(0, 10) == "agent busy"@);
    assert(error_text(TurnError::NoActiveTurn).subrange(0, 19) == "no turn in progress"@);
    assert("turn aborted"@ == "turn "@ + "aborted"@);
}

/// The notice of a used-up budget names the budget.
pub proof fn notices_name_the_budget(max_steps: u32)
    ensures
        has_prefix(
            max_turns_text(max_steps),
            "[notice] Reached max_turns ("@ + decimal(max_steps as nat) + ")"@,
        ),
{
    reveal_strlit(")");
    reveal_strlit(
        ") without a final answer. Send a follow-up to continue, or raise max turns / use Unlimited.",
    );
    let start = "[notice] Reached max_turns ("@ + decimal(max_steps as nat) + ")"@;
    assert(max_turns_text(max_steps).subrange(0, start.len() as int) == start);
}

/// The text of an identity holds 32 hexadecimal digits in groups of 8, 4, 4, 4 and 12 with
/// hyphens between; the last digit is the lowest.
pub proof fn identities_are_written_in_groups(value: u128, i: int)
    requires
        0 <= i < 36,
    ensures
        hyphenated(value).len() == 36,
        simple_hex(value).len() == 32,
        hyphenated(value)[8] == '-' && hyphenated(value)[13] == '-' && hyphenated(value)[18] == '-'
            && hyphenated(value)[23] == '-',
        hyphenated(value)[35] == hex_digit(value as nat % 16),
        hyphenated(value)[34] == hex_digit(value as nat / 16 % 16),
        i < 8 ==> hyphenated(value)[i] == simple_hex(value)[i],
        8 < i < 13 ==> hyphenated(value)[i] == simple_hex(value)[i - 1],
        13 < i < 18 ==> hyphenated(value)[i] == simple_hex(value)[i - 2],
        18 < i < 23 ==> hyphenated(value)[i] == simple_hex(value)[i - 3],
        23 < i ==> hyphenated(value)[i] == simple_hex(value)[i - 4],
        hex_digit(0) == '0' && hex_digit(9) == '9' && hex_digit(10) == 'a' && hex_digit(15) == 'f',
{
    reveal_with_fuel(nibble, 3);
}

/// Messages leave one at a time unless asked otherwise, and new buffers hold none.
pub proof fn messages_leave_one_at_a_time_by_default(mode: QueueMode, buffer: SteerBuffer)
    requires
        call_ensures(<QueueMode as Default>::default, (), mode),
        call_ensures(<SteerBuffer as Default>::default, (), buffer),
    ensures
        mode is OneAtATime,
        buffer.queue_mode() is OneAtATime,
        buffer@.len() == 0,
{
}

} // verus!
