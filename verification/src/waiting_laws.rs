//! Every exchange waits for the outcome of the work that its state names: any other
//! event changes nothing, and what is done stays done.
use vstd::prelude::*;
use crate::authorization::{Authorize, AuthorizeEvent};
use crate::cipher::{
    Decrypt, DecryptCipher, DecryptCipherEvent, DecryptEvent, DecryptWithKeys, DecryptWithKeysEvent,
    Encrypt, EncryptEvent, EncryptWithKey, EncryptWithKeyEvent,
};
use crate::dbcheck::{OpenEntry, OpenEntryEvent, PrepareScan, PrepareScanEvent};
use crate::login::{
    Login, LoginEvent, LoginSuccess, LoginSuccessEvent, Register, RegisterEvent, TwoFactor,
    TwoFactorEvent,
};
use crate::notifications::{Subscribe, SubscribeEvent};
use crate::pinentry::{Probe, ProbeEvent};
use crate::ssh_keys::{
    DecryptPublicKeys, DecryptPublicKeysEvent, GetPublicKeys, GetPublicKeysEvent, RefreshCache,
    RefreshCacheEvent,
};
use crate::ssh_sign::{FindPrivateKey, FindPrivateKeyEvent, Sign, SignEvent};
use crate::sync::{Sync, SyncEvent};
use crate::vault::{
    Lock, LockEvent, Unlock, UnlockDatabase, UnlockDatabaseEvent, UnlockEvent, VerifyPassword,
    VerifyPasswordEvent,
};

verus! {

/// What a registration does not wait for changes nothing.
pub proof fn law_register_waits<P, E>(state: Register<P, E>, event: RegisterEvent<P, E>, after: Register<P, E>)
    requires
        state.steps_to(event, after),
        !({
            ||| state is LoadDb && event is DbLoaded
            ||| state is LoadBaseUrl && event is BaseUrlLoaded
            ||| state is LoadEmail && event is EmailLoaded
            ||| state is AskClientId && event is Answered
            ||| state is AskClientSecret && event is Answered
            ||| state is Register && event is Registered
            ||| state is Respond && event is Responded
        }),
    ensures
        after == state,
{
}

/// What a login does not wait for changes nothing.
pub proof fn law_login_waits<T, O, N, P, E>(state: Login<T, O, N, P, E>, event: LoginEvent<T, O, N, P, E>, after: Login<T, O, N, P, E>)
    requires
        state.steps_to(event, after),
        !({
            ||| state is LoadDb && event is DbLoaded
            ||| state is LoadBaseUrl && event is BaseUrlLoaded
            ||| state is LoadEmail && event is EmailLoaded
            ||| state is AskPassword && event is Answered
            ||| state is LogIn && event is LoggedIn
            ||| state is SendEmail && event is EmailSent
            ||| state is TwoFactor && event is SecondFactor
            ||| state is LoginSuccess && event is Succeeded
            ||| state is Respond && event is Responded
        }),
    ensures
        after == state,
{
}

/// What a login with a second factor does not wait for changes nothing.
pub proof fn law_two_factor_waits<T, P, E>(state: TwoFactor<T, P, E>, event: TwoFactorEvent<T, E>, after: TwoFactor<T, P, E>)
    requires
        state.steps_to(event, after),
        !({
            ||| state is AskCode && event is Answered
            ||| state is LogIn && event is LoggedIn
        }),
    ensures
        after == state,
{
}

/// What what follows a login does not wait for changes nothing.
pub proof fn law_login_success_waits<T, O, N, P, K, E>(state: LoginSuccess<T, O, N, P, K, E>, event: LoginSuccessEvent<T, O, N, K, E>, after: LoginSuccess<T, O, N, P, K, E>)
    requires
        state.steps_to(event, after),
        !({
            ||| state is SaveDb && event is DbSaved
            ||| state is Sync && event is Synced
            ||| state is LoadDb && event is DbLoaded
            ||| state is Unlock && event is Unlocked
            ||| state is StoreKeys && event is KeysStored
            ||| state is RefreshCache && event is CacheRefreshed
            ||| state is Warn && event is Warned
        }),
    ensures
        after == state,
{
}

/// What a check of the master password does not wait for changes nothing.
pub proof fn law_password_check_waits<T, O, N, P, K, E>(state: VerifyPassword<T, O, P, K, E>, event: VerifyPasswordEvent<T, O, N, P, K, E>, after: VerifyPassword<T, O, P, K, E>)
    requires
        state.steps_to(event, after),
        !({
            ||| state is LoadDb && event is DbLoaded
            ||| state is LoadEmail && event is EmailLoaded
            ||| state is AskPassword && event is Answered
            ||| state is Unlock && event is Unlocked
        }),
    ensures
        after == state,
{
}

/// What an unlocking does not wait for changes nothing.
pub proof fn law_unlocking_waits<K, E>(state: UnlockDatabase<K, E>, event: UnlockDatabaseEvent<K, E>, after: UnlockDatabase<K, E>)
    requires
        state.steps_to(event, after),
        !({
            ||| state is ReadGeneration && event is GenerationRead
            ||| state is TakeGate && event is GateTaken
            ||| state is CheckLocked && event is LockChecked
            ||| state is Verify && event is Verified
            ||| state is CheckGeneration && event is GenerationChecked
            ||| state is StoreKeys && event is KeysStored
            ||| state is TakeGate && event is TimedOut
            ||| state is CheckLocked && event is TimedOut
            ||| state is Verify && event is TimedOut
            ||| state is CheckGeneration && event is TimedOut
        }),
    ensures
        after == state,
{
}

/// What the request to unlock the vault does not wait for changes nothing.
pub proof fn law_unlock_request_waits<E>(state: Unlock<E>, event: UnlockEvent<E>, after: Unlock<E>)
    requires
        state.steps_to(event, after),
        !({
            ||| state is LoadPinentry && event is PinentryLoaded
            ||| state is UnlockDatabase && event is Unlocked
            ||| state is RefreshCache && event is CacheRefreshed
            ||| state is Warn && event is Warned
            ||| state is Respond && event is Responded
        }),
    ensures
        after == state,
{
}

/// What the request to lock the vault does not wait for changes nothing.
pub proof fn law_lock_request_waits<E>(state: Lock<E>, event: LockEvent<E>, after: Lock<E>)
    requires
        state.steps_to(event, after),
        !({
            ||| state is Clear && event is Cleared
            ||| state is Respond && event is Responded
        }),
    ensures
        after == state,
{
}

/// What an authorisation does not wait for changes nothing.
pub proof fn law_authorisation_waits<K, E>(state: Authorize<K, E>, event: AuthorizeEvent<K, E>, after: Authorize<K, E>)
    requires
        state.steps_to(event, after),
        !({
            ||| state is ReadGeneration && event is GenerationRead
            ||| state is LoadConfig && event is ConfigLoaded
            ||| state is TakeGate && event is GateTaken
            ||| state is CheckBeforePrompt && event is GenerationChecked
            ||| state is Verify && event is Verified
            ||| state is CheckGeneration && event is GenerationChecked
            ||| state is TakeGate && event is TimedOut
            ||| state is CheckBeforePrompt && event is TimedOut
            ||| state is Verify && event is TimedOut
            ||| state is CheckGeneration && event is TimedOut
        }),
    ensures
        after == state,
{
}

/// What a decryption with given keys does not wait for changes nothing.
pub proof fn law_decryption_with_keys_waits<K, C, E>(state: DecryptWithKeys<K, C, E>, event: DecryptWithKeysEvent<K, C, E>, after: DecryptWithKeys<K, C, E>)
    requires
        state.steps_to(event, after),
        !({
            ||| state is ParseItemKey && event is ItemKeyParsed
            ||| state is DecryptItemKey && event is ItemKeyDecrypted
            ||| state is ParseSecret && event is SecretParsed
            ||| state is DecryptSecret && event is SecretDecrypted
        }),
    ensures
        after == state,
{
}

/// What an encryption with given keys does not wait for changes nothing.
pub proof fn law_encryption_with_key_waits<K, C, E>(state: EncryptWithKey<K, C, E>, event: EncryptWithKeyEvent<K, C, E>, after: EncryptWithKey<K, C, E>)
    requires
        state.steps_to(event, after),
        !({
            ||| state is ParseItemKey && event is ItemKeyParsed
            ||| state is DecryptItemKey && event is ItemKeyDecrypted
            ||| state is Encrypt && event is Encrypted
        }),
    ensures
        after == state,
{
}

/// What a decryption with the keys of the agent does not wait for changes nothing.
pub proof fn law_decryption_waits<N, K, E>(state: DecryptCipher<N, K, E>, event: DecryptCipherEvent<N, K, E>, after: DecryptCipher<N, K, E>)
    requires
        state.steps_to(event, after),
        !({
            ||| state is CheckReprompt && event is RepromptChecked
            ||| state is LoadEntries && event is EntriesLoaded
            ||| state is SetReprompt && event is RepromptSet
            ||| state is LookUp && event is LookedUp
            ||| state is TakeGate && event is GateTaken
            ||| state is CheckBeforePrompt && event is GenerationChecked
            ||| state is Verify && event is Verified
            ||| state is FindKeys && event is KeysFound
            ||| state is Decrypt && event is Decrypted
            ||| state is TakeGate && event is TimedOut
            ||| state is CheckBeforePrompt && event is TimedOut
            ||| state is Verify && event is TimedOut
        }),
    ensures
        after == state,
{
}

/// What the request to decrypt a text does not wait for changes nothing.
pub proof fn law_decrypt_request_waits<E>(state: Decrypt<E>, event: DecryptEvent<E>, after: Decrypt<E>)
    requires
        state.steps_to(event, after),
        !({
            ||| state is LoadPinentry && event is PinentryLoaded
            ||| state is Decrypt && event is Decrypted
            ||| state is Respond && event is Responded
        }),
    ensures
        after == state,
{
}

/// What the request to encrypt a text does not wait for changes nothing.
pub proof fn law_encrypt_request_waits<K, E>(state: Encrypt<K, E>, event: EncryptEvent<K, E>, after: Encrypt<K, E>)
    requires
        state.steps_to(event, after),
        !({
            ||| state is FindKeys && event is KeysFound
            ||| state is Encrypt && event is Encrypted
            ||| state is Respond && event is Responded
        }),
    ensures
        after == state,
{
}

/// What a synchronisation does not wait for changes nothing.
pub proof fn law_sync_waits<T, O, N, E>(state: Sync<T, O, N, E>, event: SyncEvent<T, O, N, E>, after: Sync<T, O, N, E>)
    requires
        state.steps_to(event, after),
        !({
            ||| state is LoadDb && event is DbLoaded
            ||| state is Fetch && event is Fetched
            ||| state is SetReprompt && event is RepromptSet
            ||| state is SaveDb && event is DbSaved
            ||| state is CheckLocked && event is LockChecked
            ||| state is RefreshCache && event is CacheRefreshed
            ||| state is RemoveCache && event is CacheRemoved
            ||| state is Subscribe && event is Subscribed
            ||| state is Warn && event is Warned
            ||| state is Respond && event is Responded
        }),
    ensures
        after == state,
{
}

/// What a subscription does not wait for changes nothing.
pub proof fn law_subscription_waits<T, O, N, E>(state: Subscribe<E>, event: SubscribeEvent<T, O, N, E>, after: Subscribe<E>)
    requires
        state.steps_to(event, after),
        !({
            ||| state is CheckConnected && event is ConnectionChecked
            ||| state is LoadConfig && event is ConfigLoaded
            ||| state is LoadDb && event is DbLoaded
            ||| state is Connect && event is Connected
        }),
    ensures
        after == state,
{
}

/// What the decryption of the public keys does not wait for changes nothing.
pub proof fn law_listing_waits<K, E>(state: DecryptPublicKeys<K, E>, event: DecryptPublicKeysEvent<K, E>, after: DecryptPublicKeys<K, E>)
    requires
        state.steps_to(event, after),
        !({
            ||| state is FindKeys && event is KeysFound
            ||| state is Decrypt && event is Decrypted
        }),
    ensures
        after == state,
{
}

/// What a refresh of the cache does not wait for changes nothing.
pub proof fn law_refresh_waits<T, O, N, E>(state: RefreshCache<N, E>, event: RefreshCacheEvent<T, O, N, E>, after: RefreshCache<N, E>)
    requires
        state.steps_to(event, after),
        !({
            ||| state is LoadDb && event is DbLoaded
            ||| state is CheckLocked && event is LockChecked
            ||| state is DecryptPublicKeys && event is Decrypted
            ||| state is SaveCache && event is Saved
        }),
    ensures
        after == state,
{
}

/// What a request for the public keys does not wait for changes nothing.
pub proof fn law_key_request_waits<E>(state: GetPublicKeys<E>, event: GetPublicKeysEvent<E>, after: GetPublicKeys<E>)
    requires
        state.steps_to(event, after),
        !({
            ||| state is LoadCache && event is CacheLoaded
            ||| state is RemoveCache && event is CacheRemoved
            ||| state is Warn && event is Warned
            ||| state is SetTimeout && event is TimeoutSet
            ||| state is Unlock && event is Unlocked
            ||| state is Refresh && event is Refreshed
        }),
    ensures
        after == state,
{
}

/// What the search for a private key does not wait for changes nothing.
pub proof fn law_search_waits<T, O, E>(state: FindPrivateKey<E>, event: FindPrivateKeyEvent<T, O, E>, after: FindPrivateKey<E>)
    requires
        state.steps_to(event, after),
        !({
            ||| state is CheckLocked && event is LockChecked
            ||| state is SetTimeout && event is TimeoutSet
            ||| state is Unlock && event is Unlocked
            ||| state is LoadDb && event is DbLoaded
            ||| state is DecryptPublicKey && event is Decrypted
            ||| state is DecryptPrivateKey && event is Decrypted
        }),
    ensures
        after == state,
{
}

/// What a request for a signature does not wait for changes nothing.
pub proof fn law_signature_request_waits<K, E>(state: Sign<K, E>, event: SignEvent<K, E>, after: Sign<K, E>)
    requires
        state.steps_to(event, after),
        !({
            ||| state is Authorize && event is Authorized
            ||| state is FindKey && event is KeyFound
            ||| state is CheckGeneration && event is GenerationChecked
        }),
    ensures
        after == state,
{
}

/// What a probe does not wait for changes nothing.
pub proof fn law_probe_waits(state: Probe, event: ProbeEvent, after: Probe)
    requires
        state.steps_to(event, after),
        !({
            ||| state is CheckVersion && event is VersionChecked
            ||| state is Start && event is Started
            ||| state is ReadGreeting && event is GreetingRead
            ||| state is SayBye && event is ByeSaid
            ||| state is AwaitExit && event is Exited
        }),
    ensures
        after == state,
{
}

/// What the preparation of a scan does not wait for changes nothing.
pub proof fn law_scan_preparation_waits<T, O, P, K, E>(state: PrepareScan<T, O, P, K, E>, event: PrepareScanEvent<T, O, P, K, E>, after: PrepareScan<T, O, P, K, E>)
    requires
        state.steps_to(event, after),
        !({
            ||| state is LoadConfig && event is ConfigLoaded
            ||| state is LoadDb && event is DbLoaded
            ||| state is AskPassword && event is Answered
            ||| state is Unlock && event is Unlocked
        }),
    ensures
        after == state,
{
}

/// What the opening of an entry does not wait for changes nothing.
pub proof fn law_opening_waits<K>(state: OpenEntry<K>, event: OpenEntryEvent<K>, after: OpenEntry<K>)
    requires
        state.steps_to(event, after),
        !({
            ||| state is OpenItemKey && event is ItemKeyOpened
            ||| state is OpenPart && event is PartOpened
        }),
    ensures
        after == state,
{
}

} // verus!
