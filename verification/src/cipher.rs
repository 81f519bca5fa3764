//! Buffer sizing and status handling for symmetric cipher contexts.

use vstd::prelude::*;

verus! {

/// Direction requested by the generic cipher initializer.
#[derive(Clone, Copy, Debug, PartialEq, Eq, Structural)]
pub enum CipherDirection {
    Encrypt,
    Decrypt,
    Unchanged,
}

/// The integer libcrypto expects for each direction.
pub open spec fn direction_code(direction: CipherDirection) -> i32 {
    match direction {
        CipherDirection::Encrypt => 1,
        CipherDirection::Decrypt => 0,
        CipherDirection::Unchanged => -1i32,
    }
}

impl CipherDirection {
    /// The `enc` argument of the libcrypto initializers.
    pub fn as_c_int(self) -> (code: i32)
        ensures
            code == direction_code(self),
    {
        match self {
            CipherDirection::Encrypt => 1,
            CipherDirection::Decrypt => 0,
            CipherDirection::Unchanged => -1i32,
        }
    }
}

/// The key and IV lengths a cipher (or an initialized context) publishes.
/// libcrypto reports a negative length when it cannot tell.
#[derive(Clone, Copy, Debug, PartialEq, Eq, Structural)]
pub struct CipherLengths {
    pub key_length: i32,
    pub iv_length: i32,
}

/// The lengths an initializer must honour: those of the cipher being
/// installed, or, when none is given, those of the context's current cipher.
pub open spec fn spec_expected_lengths(ctx: CipherLengths, cipher: Option<CipherLengths>) -> CipherLengths {
    match cipher {
        Some(lengths) => lengths,
        None => ctx,
    }
}

/// Chooses the published lengths against which key and IV buffers are checked.
pub fn expected_lengths(ctx: CipherLengths, cipher: Option<CipherLengths>) -> (lengths: CipherLengths)
    ensures
        lengths == spec_expected_lengths(ctx, cipher),
{
    match cipher {
        Some(lengths) => lengths,
        None => ctx,
    }
}

/// An optional buffer satisfies a published length when it is absent, or when
/// the length is known (non-negative) and the buffer holds at least that many bytes.
pub open spec fn buffer_fits(buffer: Option<Seq<u8>>, length: i32) -> bool {
    match buffer {
        None => true,
        Some(bytes) => length >= 0 && bytes.len() >= length,
    }
}

/// The view of an optional byte slice.
pub open spec fn opt_view(buffer: Option<&[u8]>) -> Option<Seq<u8>> {
    match buffer {
        None => None,
        Some(bytes) => Some(bytes@),
    }
}

fn fits(buffer: Option<&[u8]>, length: i32) -> (ok: bool)
    ensures
        ok == buffer_fits(opt_view(buffer), length),
{
    match buffer {
        None => true,
        Some(bytes) => length >= 0 && bytes.len() >= length as usize,
    }
}

/// Whether the key and IV given to an initializer cover the implicit extents
/// libcrypto will read from them.
pub open spec fn spec_init_buffers_fit(
    ctx: CipherLengths,
    cipher: Option<CipherLengths>,
    key: Option<Seq<u8>>,
    iv: Option<Seq<u8>>,
) -> bool {
    let lengths = spec_expected_lengths(ctx, cipher);
    buffer_fits(key, lengths.key_length) && buffer_fits(iv, lengths.iv_length)
}

/// Checks the key and IV buffers of an initializer against the expected lengths.
pub fn init_buffers_fit(
    ctx: CipherLengths,
    cipher: Option<CipherLengths>,
    key: Option<&[u8]>,
    iv: Option<&[u8]>,
) -> (ok: bool)
    ensures
        ok == spec_init_buffers_fit(ctx, cipher, opt_view(key), opt_view(iv)),
{
    let lengths = expected_lengths(ctx, cipher);
    fits(key, lengths.key_length) && fits(iv, lengths.iv_length)
}

/// Whether an initializer taking a parameter list may proceed: a list that
/// changes the key or IV length cannot be combined with key or IV bytes in the
/// same call, and the bytes must fit the currently expected lengths.
pub open spec fn spec_init_ex2_permitted(
    params_change_lengths: bool,
    ctx: CipherLengths,
    cipher: Option<CipherLengths>,
    key: Option<Seq<u8>>,
    iv: Option<Seq<u8>>,
) -> bool {
    !(params_change_lengths && (key.is_some() || iv.is_some()))
        && spec_init_buffers_fit(ctx, cipher, key, iv)
}

/// The check made before calling the `_ex2` initializers.
pub fn init_ex2_permitted(
    params_change_lengths: bool,
    ctx: CipherLengths,
    cipher: Option<CipherLengths>,
    key: Option<&[u8]>,
    iv: Option<&[u8]>,
) -> (ok: bool)
    ensures
        ok == spec_init_ex2_permitted(params_change_lengths, ctx, cipher, opt_view(key), opt_view(iv)),
{
    if params_change_lengths && (key.is_some() || iv.is_some()) {
        false
    } else {
        init_buffers_fit(ctx, cipher, key, iv)
    }
}

/// The parameter key that changes a cipher's key length.
pub open spec fn keylen_key() -> Seq<u8> {
    seq![107u8, 101u8, 121u8, 108u8, 101u8, 110u8]
}

/// The parameter key that changes a cipher's IV length.
pub open spec fn ivlen_key() -> Seq<u8> {
    seq![105u8, 118u8, 108u8, 101u8, 110u8]
}

/// Whether a parameter key changes the key or IV length.
pub open spec fn is_length_key(key: Seq<u8>) -> bool {
    key == keylen_key() || key == ivlen_key()
}

fn length_key(key: &Vec<u8>) -> (found: bool)
    ensures
        found == is_length_key(key@),
{
    let n = key.len();
    if n == 6 {
        let r = key[0] == 107u8 && key[1] == 101u8 && key[2] == 121u8 && key[3] == 108u8
            && key[4] == 101u8 && key[5] == 110u8;
        if r {
            assert(key@ =~= keylen_key());
        }
        r
    } else if n == 5 {
        let r = key[0] == 105u8 && key[1] == 118u8 && key[2] == 108u8 && key[3] == 101u8
            && key[4] == 110u8;
        if r {
            assert(key@ =~= ivlen_key());
        }
        r
    } else {
        false
    }
}

/// Whether one parameter entry (given by its optional key) changes a length.
pub open spec fn changes_length(key: Option<Seq<u8>>) -> bool {
    match key {
        Some(k) => is_length_key(k),
        None => false,
    }
}

/// Whether a parameter list, given by the keys of its entries in order
/// (`None` for an entry without a key), holds an entry that changes the key or
/// IV length.
pub open spec fn spec_params_change_lengths(keys: Option<Seq<Option<Seq<u8>>>>) -> bool {
    match keys {
        None => false,
        Some(ks) => any_changes_length(ks),
    }
}

/// Whether some entry of a list of optional parameter keys changes a length.
pub open spec fn any_changes_length(keys: Seq<Option<Seq<u8>>>) -> bool {
    exists|i: int| 0 <= i < keys.len() && changes_length(#[trigger] keys[i])
}

/// The view of a list of optional parameter keys.
pub open spec fn keys_view(keys: Seq<Option<Vec<u8>>>) -> Seq<Option<Seq<u8>>> {
    keys.map_values(|k: Option<Vec<u8>>|
        match k {
            None => None,
            Some(v) => Some(v@),
        })
}

/// Scans a parameter list for a `keylen` or `ivlen` entry.
pub fn params_change_lengths(keys: Option<&Vec<Option<Vec<u8>>>>) -> (found: bool)
    ensures
        found == spec_params_change_lengths(
            match keys {
                None => None,
                Some(k) => Some(keys_view(k@)),
            },
        ),
{
    match keys {
        None => false,
        Some(list) => {
            let ghost view = keys_view(list@);
            let n = list.len();
            let mut i: usize = 0;
            while i < n
                invariant
                    n == list.len(),
                    keys == Some(list),
                    i <= n,
                    view == keys_view(list@),
                    forall|j: int| 0 <= j < i ==> !changes_length(#[trigger] view[j]),
                decreases n - i,
            {
                match &list[i] {
                    Some(key) => {
                        assert(view[i as int] == Some(key@));
                        if length_key(key) {
                            assert(changes_length(view[i as int]));
                            return true;
                        }
                    },
                    None => {
                        assert(view[i as int] == None::<Seq<u8>>);
                    },
                }
                i = i + 1;
            }
            false
        },
    }
}

/// The usable block size of a context: libcrypto's answer when it is
/// positive, nothing when it is zero or an error.
pub open spec fn spec_block_size(raw: i32) -> Option<usize> {
    if raw > 0 {
        Some(raw as usize)
    } else {
        None
    }
}

/// Interprets the block size libcrypto reports for a context.
pub fn block_size(raw: i32) -> (size: Option<usize>)
    ensures
        size == spec_block_size(raw),
{
    if raw > 0 {
        Some(raw as usize)
    } else {
        None
    }
}

/// The extra output a block cipher may produce beyond its input: nothing for a
/// stream cipher (block size one), a whole block otherwise.
pub open spec fn block_slack(block: usize) -> int {
    if block == 1 {
        0
    } else {
        block as int
    }
}

/// Worst-case output of an update on `input_len` bytes, when it fits in usize.
pub open spec fn spec_update_capacity(block_raw: i32, input_len: usize) -> Option<usize> {
    match spec_block_size(block_raw) {
        None => None,
        Some(block) => if input_len + block_slack(block) <= usize::MAX {
            Some((input_len + block_slack(block)) as usize)
        } else {
            None
        },
    }
}

/// Computes the output capacity an update call needs.
pub fn update_capacity(block_raw: i32, input_len: usize) -> (capacity: Option<usize>)
    ensures
        capacity == spec_update_capacity(block_raw, input_len),
{
    match block_size(block_raw) {
        None => None,
        Some(block) => {
            let slack: usize = if block == 1 { 0 } else { block };
            input_len.checked_add(slack)
        },
    }
}

/// Worst-case output of a final call.
pub open spec fn spec_final_capacity(block_raw: i32) -> Option<usize> {
    match spec_block_size(block_raw) {
        None => None,
        Some(block) => Some(block_slack(block) as usize),
    }
}

/// Computes the output capacity a final call needs.
pub fn final_capacity(block_raw: i32) -> (capacity: Option<usize>)
    ensures
        capacity == spec_final_capacity(block_raw),
{
    match block_size(block_raw) {
        None => None,
        Some(block) => Some(if block == 1 { 0 } else { block }),
    }
}

/// What an update call is handed when it may go ahead: the input length as
/// libcrypto's `int`, and the output capacity checked against.
pub open spec fn spec_update_plan(block_raw: i32, input_len: usize, output_len: usize) -> Result<(i32, usize), i32> {
    if input_len > i32::MAX {
        Err(0)
    } else {
        match spec_update_capacity(block_raw, input_len) {
            None => Err(0),
            Some(required) => if output_len < required {
                Err(0)
            } else {
                Ok((input_len as i32, required))
            },
        }
    }
}

/// Decides whether an update on `input_len` bytes into `output_len` bytes of
/// output may be issued: the input length must fit libcrypto's `int`, the
/// context must have a block size, and the output must hold the worst case.
pub fn update_plan(block_raw: i32, input_len: usize, output_len: usize) -> (plan: Result<(i32, usize), i32>)
    ensures
        plan == spec_update_plan(block_raw, input_len, output_len),
{
    if input_len > 0x7fff_ffffusize {
        return Err(0);
    }
    match update_capacity(block_raw, input_len) {
        None => Err(0),
        Some(required) => if output_len < required {
            Err(0)
        } else {
            Ok((input_len as i32, required))
        },
    }
}

/// The result of an update or final call: a failing status is passed on, and a
/// reported byte count is accepted only within `limit`.
pub open spec fn spec_written_outcome(status: i32, written: i32, limit: usize) -> Result<usize, i32> {
    if status <= 0 {
        Err(status)
    } else if written < 0 || written > limit {
        Err(0)
    } else {
        Ok(written as usize)
    }
}

/// Interprets the status and byte count an update call reports.
pub fn update_outcome(status: i32, written: i32, required: usize) -> (outcome: Result<usize, i32>)
    ensures
        outcome == spec_written_outcome(status, written, required),
{
    written_outcome(status, written, required)
}

fn written_outcome(status: i32, written: i32, limit: usize) -> (outcome: Result<usize, i32>)
    ensures
        outcome == spec_written_outcome(status, written, limit),
{
    if status <= 0 {
        Err(status)
    } else if written < 0 || written as usize > limit {
        Err(0)
    } else {
        Ok(written as usize)
    }
}

/// What a final call needs: the output capacity, when the output holds it.
pub open spec fn spec_final_plan(block_raw: i32, output_len: usize) -> Result<usize, i32> {
    match spec_final_capacity(block_raw) {
        None => Err(0),
        Some(required) => if output_len < required {
            Err(0)
        } else {
            Ok(required)
        },
    }
}

/// Decides whether a final call into `output_len` bytes may be issued.
pub fn final_plan(block_raw: i32, output_len: usize) -> (plan: Result<usize, i32>)
    ensures
        plan == spec_final_plan(block_raw, output_len),
{
    match final_capacity(block_raw) {
        None => Err(0),
        Some(required) => if output_len < required {
            Err(0)
        } else {
            Ok(required)
        },
    }
}

/// Interprets the status and byte count a final call reports; the count is
/// accepted within the whole output buffer.
pub fn final_outcome(status: i32, written: i32, output_len: usize) -> (outcome: Result<usize, i32>)
    ensures
        outcome == spec_written_outcome(status, written, output_len),
{
    written_outcome(status, written, output_len)
}

/// The input length handed to the one-shot `EVP_Cipher` call, when the call
/// may go ahead (otherwise the call reports 0).
pub open spec fn spec_cipher_call_plan(block_raw: i32, input_len: Option<usize>, output_len: usize) -> Option<u32> {
    let len: int = match input_len {
        None => 0,
        Some(n) => n as int,
    };
    if len > u32::MAX {
        None
    } else {
        match spec_update_capacity(block_raw, len as usize) {
            None => None,
            Some(required) => if output_len < required {
                None
            } else {
                Some(len as u32)
            },
        }
    }
}

/// Decides whether `EVP_Cipher` may run on an optional input.
pub fn cipher_call_plan(block_raw: i32, input_len: Option<usize>, output_len: usize) -> (plan: Option<u32>)
    ensures
        plan == spec_cipher_call_plan(block_raw, input_len, output_len),
{
    let len: usize = match input_len {
        None => 0,
        Some(n) => n,
    };
    if len > 0xffff_ffffusize {
        return None;
    }
    match update_capacity(block_raw, len) {
        None => None,
        Some(required) => if output_len < required {
            None
        } else {
            Some(len as u32)
        },
    }
}

/// Whether a random key may be written into `key_len` bytes: the context's key
/// length must be known and fit in the buffer.
pub open spec fn spec_rand_key_permitted(required: i32, key_len: usize) -> bool {
    required >= 0 && key_len >= required
}

/// The check made before calling `EVP_CIPHER_CTX_rand_key`.
pub fn rand_key_permitted(required: i32, key_len: usize) -> (ok: bool)
    ensures
        ok == spec_rand_key_permitted(required, key_len),
{
    required >= 0 && key_len >= required as usize
}

/// The input length handed to a legacy whole-key encryption or decryption,
/// when the call may go ahead: the input fits an `int`, the key size is
/// positive and the output holds a whole key size.
pub open spec fn spec_legacy_crypt_plan(input_len: usize, required: i32, output_len: usize) -> Option<i32> {
    if input_len > i32::MAX || required <= 0 || output_len < required {
        None
    } else {
        Some(input_len as i32)
    }
}

/// The check made before calling `EVP_PKEY_encrypt_old` and `EVP_PKEY_decrypt_old`.
pub fn legacy_crypt_plan(input_len: usize, required: i32, output_len: usize) -> (plan: Option<i32>)
    ensures
        plan == spec_legacy_crypt_plan(input_len, required, output_len),
{
    if input_len > 0x7fff_ffffusize || required <= 0 || output_len < required as usize {
        None
    } else {
        Some(input_len as i32)
    }
}

/// An update that the plan let through and whose report was accepted never
/// claims more output than the caller's buffer holds, and the buffer held the
/// worst case for the input.
pub proof fn law_update_stays_in_output(
    block_raw: i32,
    input_len: usize,
    output_len: usize,
    status: i32,
    written: i32,
)
    requires
        spec_update_plan(block_raw, input_len, output_len) is Ok,
    ensures
        ({
            let (len, required) = spec_update_plan(block_raw, input_len, output_len)->Ok_0;
            &&& len == input_len
            &&& input_len + block_slack(spec_block_size(block_raw)->Some_0) == required
            &&& required <= output_len
            &&& (spec_written_outcome(status, written, required) matches Ok(n) ==> n <= output_len)
        }),
{
}

/// A final call that the plan let through reports at most the buffer.
pub proof fn law_final_stays_in_output(block_raw: i32, output_len: usize, status: i32, written: i32)
    requires
        spec_final_plan(block_raw, output_len) is Ok,
    ensures
        spec_final_plan(block_raw, output_len)->Ok_0 <= output_len,
        spec_written_outcome(status, written, output_len) matches Ok(n) ==> n <= output_len,
{
}

/// A stream cipher (block size 1) needs exactly its input's length of output;
/// a block cipher may need one block more.
pub proof fn law_update_capacity_by_block(block_raw: i32, input_len: usize)
    requires
        block_raw > 0,
        input_len + block_raw <= usize::MAX,
    ensures
        block_raw == 1 ==> spec_update_capacity(block_raw, input_len) == Some(input_len),
        block_raw > 1 ==> spec_update_capacity(block_raw, input_len) == Some((input_len + block_raw) as usize),
{
}

/// Whether an optional buffer covers a published length, stated directly:
/// no buffer always does; a buffer does when the length is known and the
/// buffer is at least that long.
pub open spec fn covers(buffer: Option<Seq<u8>>, length: i32) -> bool {
    buffer is None || (length >= 0 && buffer->Some_0.len() >= length as int)
}

/// What libcrypto reports after an update or final call is accepted exactly
/// when the status is positive and the count lies between 0 and the limit,
/// bounds included; a failing status is passed on and any other count is
/// refused with 0.
pub proof fn law_written_outcome(status: i32, written: i32, limit: usize)
    ensures
        status <= 0 ==> spec_written_outcome(status, written, limit) == Err::<usize, i32>(status),
        status > 0 && 0 <= written && written as int <= limit as int
            ==> spec_written_outcome(status, written, limit) == Ok::<usize, i32>(written as usize),
        status > 0 && (written < 0 || written as int > limit as int)
            ==> spec_written_outcome(status, written, limit) == Err::<usize, i32>(0),
{
}

/// The key and IV checks of every initializer: each given buffer must cover
/// the length published by the cipher being installed, or by the context's
/// current cipher when none is given.
pub proof fn law_init_buffers(
    ctx: CipherLengths,
    cipher: Option<CipherLengths>,
    key: Option<Seq<u8>>,
    iv: Option<Seq<u8>>,
)
    ensures
        cipher matches Some(c) ==> (spec_init_buffers_fit(ctx, cipher, key, iv) == (covers(
            key,
            c.key_length,
        ) && covers(iv, c.iv_length))),
        cipher is None ==> (spec_init_buffers_fit(ctx, cipher, key, iv) == (covers(
            key,
            ctx.key_length,
        ) && covers(iv, ctx.iv_length))),
{
}

/// The `_ex2` initializers: a parameter list that changes a length refuses
/// the call exactly when key or IV bytes come with it; otherwise the call may
/// go ahead exactly when key and IV cover the expected lengths.
pub proof fn law_init_ex2_permitted(
    params_change_lengths: bool,
    ctx: CipherLengths,
    cipher: Option<CipherLengths>,
    key: Option<Seq<u8>>,
    iv: Option<Seq<u8>>,
)
    ensures
        params_change_lengths && (key is Some || iv is Some) ==> !spec_init_ex2_permitted(
            params_change_lengths,
            ctx,
            cipher,
            key,
            iv,
        ),
        !params_change_lengths || (key is None && iv is None) ==> spec_init_ex2_permitted(
            params_change_lengths,
            ctx,
            cipher,
            key,
            iv,
        ) == ({
            let l = if cipher is Some { cipher->Some_0 } else { ctx };
            covers(key, l.key_length) && covers(iv, l.iv_length)
        }),
{
}

/// A context has a usable block size exactly when libcrypto reports a
/// positive one; the final call needs nothing for a stream cipher and one
/// whole block otherwise.
pub proof fn law_block_and_final_capacity(block_raw: i32)
    ensures
        block_raw > 0 ==> spec_block_size(block_raw) == Some(block_raw as usize),
        block_raw <= 0 ==> spec_block_size(block_raw) is None,
        block_raw <= 0 ==> spec_final_capacity(block_raw) is None,
        block_raw == 1 ==> spec_final_capacity(block_raw) == Some(0usize),
        block_raw > 1 ==> spec_final_capacity(block_raw) == Some(block_raw as usize),
{
}

/// An update needs its input's length of output for a stream cipher and one
/// block more for a block cipher, as long as that fits a `usize`.
pub proof fn law_update_capacity(block_raw: i32, input_len: usize)
    ensures
        block_raw <= 0 ==> spec_update_capacity(block_raw, input_len) is None,
        block_raw == 1 ==> spec_update_capacity(block_raw, input_len) == Some(input_len),
        block_raw > 1 && input_len + block_raw <= usize::MAX ==> spec_update_capacity(
            block_raw,
            input_len,
        ) == Some((input_len + block_raw) as usize),
        block_raw > 1 && input_len + block_raw > usize::MAX ==> spec_update_capacity(
            block_raw,
            input_len,
        ) is None,
{
}

/// An update may be issued exactly when its input fits an `int`, the context
/// has a block size and the output holds the worst case; it is then handed
/// the input length and checked against that worst case.
pub proof fn law_update_plan(block_raw: i32, input_len: usize, output_len: usize)
    ensures
        input_len <= i32::MAX && block_raw == 1 && input_len <= output_len ==> spec_update_plan(
            block_raw,
            input_len,
            output_len,
        ) == Ok::<(i32, usize), i32>((input_len as i32, input_len)),
        input_len <= i32::MAX && block_raw > 1 && input_len + block_raw <= output_len
            ==> spec_update_plan(block_raw, input_len, output_len) == Ok::<(i32, usize), i32>(
            (input_len as i32, (input_len + block_raw) as usize),
        ),
        input_len > i32::MAX || block_raw <= 0 || (block_raw == 1 && output_len < input_len) || (
        block_raw > 1 && output_len < input_len + block_raw) ==> spec_update_plan(
            block_raw,
            input_len,
            output_len,
        ) == Err::<(i32, usize), i32>(0),
{
}

/// A final call may be issued exactly when the context has a block size and
/// the output holds what the final call may write.
pub proof fn law_final_plan(block_raw: i32, output_len: usize)
    ensures
        block_raw <= 0 ==> spec_final_plan(block_raw, output_len) == Err::<usize, i32>(0),
        block_raw == 1 ==> spec_final_plan(block_raw, output_len) == Ok::<usize, i32>(0),
        block_raw > 1 && output_len >= block_raw ==> spec_final_plan(block_raw, output_len) == Ok::<
            usize,
            i32,
        >(block_raw as usize),
        block_raw > 1 && output_len < block_raw ==> spec_final_plan(block_raw, output_len) == Err::<
            usize,
            i32,
        >(0),
{
}

/// `EVP_Cipher` runs on an input (none counts as empty) exactly when its
/// length fits an `unsigned int`, the context has a block size and the output
/// holds the worst case; it is handed that length.
pub proof fn law_cipher_call_plan(block_raw: i32, input_len: Option<usize>, output_len: usize)
    ensures
        ({
            let len: int = if input_len is Some { input_len->Some_0 as int } else { 0 };
            let slack: int = if block_raw == 1 { 0 } else { block_raw as int };
            &&& (len <= u32::MAX && block_raw > 0 && len + slack <= output_len) ==> spec_cipher_call_plan(
                block_raw,
                input_len,
                output_len,
            ) == Some(len as u32)
            &&& !(len <= u32::MAX && block_raw > 0 && len + slack <= output_len) ==> spec_cipher_call_plan(
                block_raw,
                input_len,
                output_len,
            ) is None
        }),
{
}

/// A random key needs a known key length that the buffer covers; a legacy
/// whole-key operation needs an `int` input, a positive key size and an
/// output holding it.
pub proof fn law_key_sized_calls(required: i32, key_len: usize, input_len: usize, output_len: usize)
    ensures
        spec_rand_key_permitted(required, key_len) == (0 <= required && required as int <= key_len as int),
        (input_len <= i32::MAX && 0 < required && required as int <= output_len as int) ==> spec_legacy_crypt_plan(
            input_len,
            required,
            output_len,
        ) == Some(input_len as i32),
        !(input_len <= i32::MAX && 0 < required && required as int <= output_len as int) ==> spec_legacy_crypt_plan(
            input_len,
            required,
            output_len,
        ) is None,
{
}

/// The two parameter keys that change a length are exactly the ASCII spellings
/// of `keylen` and `ivlen`.
pub proof fn law_length_keys_spell_their_names()
    ensures
        keylen_key().len() == "keylen"@.len(),
        forall|i: int| 0 <= i < keylen_key().len() ==> #[trigger] keylen_key()[i] as char == "keylen"@[i],
        ivlen_key().len() == "ivlen"@.len(),
        forall|i: int| 0 <= i < ivlen_key().len() ==> #[trigger] ivlen_key()[i] as char == "ivlen"@[i],
{
    reveal_strlit("keylen");
    reveal_strlit("ivlen");
}

} // verus!
