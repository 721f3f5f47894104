//! The shared state of a running bot: three typed slots that are filled at
//! startup and read by command handlers afterwards.

use vstd::prelude::*;
use crate::config::{assembled, Config, ConfigView};
use crate::permissions::{decoded_bits, PermissionMask};

verus! {

/// The shared state as plain values: what each slot holds, if anything.
/// `H` is the handle of the connection manager, `T` the kind of timestamp.
pub struct StateView<H, T> {
    pub permissions: Option<PermissionMask>,
    pub shard_manager: Option<H>,
    pub start_time: Option<T>,
}

/// The shared state. It is filled through `&mut`, once, while the bot
/// starts, and read through `&` by any number of handlers afterwards.
pub struct SharedState<H, T> {
    permissions: Option<PermissionMask>,
    shard_manager: Option<H>,
    start_time: Option<T>,
}

impl<H, T> View for SharedState<H, T> {
    type V = StateView<H, T>;

    closed spec fn view(&self) -> StateView<H, T> {
        StateView {
            permissions: self.permissions,
            shard_manager: self.shard_manager,
            start_time: self.start_time,
        }
    }
}

/// A key of the shared state: a type that names one slot and the type of the
/// value kept in it.
pub trait StateKey<H, T> {
    type Value;

    /// What the slot of this key holds.
    spec fn stored(state: StateView<H, T>) -> Option<Self::Value>;

    /// The state with `value` in the slot of this key and every other slot
    /// as it was.
    spec fn with(state: StateView<H, T>, value: Self::Value) -> StateView<H, T>;

    /// Writes `value` into the slot of this key, over what it held.
    fn put(state: &mut SharedState<H, T>, value: Self::Value)
        ensures
            final(state)@ == Self::with(old(state)@, value),
    ;

    /// Reads the slot of this key.
    fn get(state: &SharedState<H, T>) -> (value: Option<&Self::Value>)
        ensures
            Self::stored(state@) == (match value {
                Some(v) => Some(*v),
                None => None,
            }),
    ;

    /// The slot of this key holds what was last written into it.
    proof fn lemma_stored_after_with(state: StateView<H, T>, value: Self::Value)
        ensures
            Self::stored(Self::with(state, value)) == Some(value),
    ;
}

/// The key of the default permission mask.
pub struct PermissionsContainer;

/// The key of the handle of the connection manager.
pub struct ShardManagerContainer;

/// The key of the instant at which the bot started.
pub struct StartTime;

impl<H, T> StateKey<H, T> for PermissionsContainer {
    type Value = PermissionMask;

    open spec fn stored(state: StateView<H, T>) -> Option<PermissionMask> {
        state.permissions
    }

    open spec fn with(state: StateView<H, T>, value: PermissionMask) -> StateView<H, T> {
        StateView { permissions: Some(value), ..state }
    }

    fn put(state: &mut SharedState<H, T>, value: PermissionMask) {
        state.permissions = Some(value);
    }

    fn get(state: &SharedState<H, T>) -> (value: Option<&PermissionMask>) {
        state.permissions.as_ref()
    }

    proof fn lemma_stored_after_with(state: StateView<H, T>, value: PermissionMask) {
    }
}

impl<H, T> StateKey<H, T> for ShardManagerContainer {
    type Value = H;

    open spec fn stored(state: StateView<H, T>) -> Option<H> {
        state.shard_manager
    }

    open spec fn with(state: StateView<H, T>, value: H) -> StateView<H, T> {
        StateView { shard_manager: Some(value), ..state }
    }

    fn put(state: &mut SharedState<H, T>, value: H) {
        state.shard_manager = Some(value);
    }

    fn get(state: &SharedState<H, T>) -> (value: Option<&H>) {
        state.shard_manager.as_ref()
    }

    proof fn lemma_stored_after_with(state: StateView<H, T>, value: H) {
    }
}

impl<H, T> StateKey<H, T> for StartTime {
    type Value = T;

    open spec fn stored(state: StateView<H, T>) -> Option<T> {
        state.start_time
    }

    open spec fn with(state: StateView<H, T>, value: T) -> StateView<H, T> {
        StateView { start_time: Some(value), ..state }
    }

    fn put(state: &mut SharedState<H, T>, value: T) {
        state.start_time = Some(value);
    }

    fn get(state: &SharedState<H, T>) -> (value: Option<&T>) {
        state.start_time.as_ref()
    }

    proof fn lemma_stored_after_with(state: StateView<H, T>, value: T) {
    }
}

impl<H, T> SharedState<H, T> {
    /// The state with every slot empty.
    pub fn new() -> (state: SharedState<H, T>)
        ensures
            state@ == (StateView::<H, T> {
                permissions: None,
                shard_manager: None,
                start_time: None,
            }),
    {
        SharedState { permissions: None, shard_manager: None, start_time: None }
    }

    /// Writes `value` under the key `K`. A value that the slot held before is
    /// overwritten; every other slot keeps what it holds.
    pub fn put<K: StateKey<H, T>>(&mut self, value: K::Value)
        ensures
            final(self)@ == K::with(old(self)@, value),
            K::stored(final(self)@) == Some(value),
    {
        proof {
            K::lemma_stored_after_with(self@, value);
        }
        K::put(self, value);
    }

    /// Reads the value under the key `K`, if one was written.
    pub fn get<K: StateKey<H, T>>(&self) -> (value: Option<&K::Value>)
        ensures
            K::stored(self@) == (match value {
                Some(v) => Some(*v),
                None => None,
            }),
    {
        K::get(self)
    }

    /// The state of a bot that was configured: the configured permission
    /// mask as it was decoded, the handle of the connection manager and the
    /// instant of the start, each in its slot.
    pub fn populate(config: &Config, shard_manager: H, start_time: T) -> (state: SharedState<H, T>)
        ensures
            state@ == populated(config@, shard_manager, start_time),
    {
        let mut state = SharedState::new();
        state.put::<PermissionsContainer>(config.permissions());
        state.put::<ShardManagerContainer>(shard_manager);
        state.put::<StartTime>(start_time);
        state
    }
}

/// The shared state that startup fills for a configuration: every slot is
/// written, and the permissions slot holds the mask of the configuration,
/// bit for bit.
pub open spec fn populated<H, T>(config: ConfigView, shard_manager: H, start_time: T) -> StateView<
    H,
    T,
> {
    StateView {
        permissions: Some(PermissionMask { bits: config.permissions }),
        shard_manager: Some(shard_manager),
        start_time: Some(start_time),
    }
}

/// After startup the permissions slot holds the integer that the permissions
/// setting writes, and the empty mask where the setting is absent or writes
/// none; the two other slots hold what startup was given.
pub proof fn lemma_populated_mask_is_the_decoded_one<H, T>(
    token: Seq<char>,
    prefix: Seq<char>,
    permissions: Option<Seq<char>>,
    shard_manager: H,
    start_time: T,
)
    ensures
        assembled(Some(token), Some(prefix), permissions) matches Ok(config) && {
            let state = populated(config, shard_manager, start_time);
            &&& <PermissionsContainer as StateKey<H, T>>::stored(state) == Some(
                PermissionMask { bits: decoded_bits(permissions) },
            )
            &&& <ShardManagerContainer as StateKey<H, T>>::stored(state) == Some(shard_manager)
            &&& <StartTime as StateKey<H, T>>::stored(state) == Some(start_time)
        },
{
}

/// Reading a key right after writing it gives the value written, for every
/// key.
pub proof fn lemma_get_after_put<H, T, K: StateKey<H, T>>(state: StateView<H, T>, value: K::Value)
    ensures
        K::stored(K::with(state, value)) == Some(value),
{
    K::lemma_stored_after_with(state, value);
}

/// Writing under one key leaves what the two other keys hold.
pub proof fn lemma_put_keeps_other_slots<H, T>(
    state: StateView<H, T>,
    mask: PermissionMask,
    shard_manager: H,
    start_time: T,
)
    ensures
        <ShardManagerContainer as StateKey<H, T>>::stored(
            <PermissionsContainer as StateKey<H, T>>::with(state, mask),
        ) == state.shard_manager,
        <StartTime as StateKey<H, T>>::stored(
            <PermissionsContainer as StateKey<H, T>>::with(state, mask),
        ) == state.start_time,
        <PermissionsContainer as StateKey<H, T>>::stored(
            <ShardManagerContainer as StateKey<H, T>>::with(state, shard_manager),
        ) == state.permissions,
        <StartTime as StateKey<H, T>>::stored(
            <ShardManagerContainer as StateKey<H, T>>::with(state, shard_manager),
        ) == state.start_time,
        <PermissionsContainer as StateKey<H, T>>::stored(
            <StartTime as StateKey<H, T>>::with(state, start_time),
        ) == state.permissions,
        <ShardManagerContainer as StateKey<H, T>>::stored(
            <StartTime as StateKey<H, T>>::with(state, start_time),
        ) == state.shard_manager,
{
}

} // verus!
