//! The IPv4 header checksum (the ones' complement of the ones' complement sum
//! of the header's 16-bit big-endian words).

use vstd::prelude::*;

verus! {

/// The 16-bit big-endian word at word index `i`; a final odd byte is padded with zero.
pub open spec fn header_word(data: Seq<u8>, i: int) -> int {
    if 2 * i + 1 < data.len() {
        data[2 * i] * 256 + data[2 * i + 1]
    } else {
        data[2 * i] * 256
    }
}

/// The number of 16-bit words of `data` (a final odd byte counts as a word).
pub open spec fn word_count(data: Seq<u8>) -> nat {
    ((data.len() + 1) / 2) as nat
}

/// The plain sum of the first `n` words of `data`.
pub open spec fn word_sum(data: Seq<u8>, n: nat) -> int
    decreases n,
{
    if n == 0 {
        0
    } else {
        word_sum(data, (n - 1) as nat) + header_word(data, n - 1)
    }
}

/// The ones' complement sum of a non-negative integer, folded into 16 bits:
/// the representative of `s` modulo 0xffff in 1..=0xffff, and 0 for 0.
pub open spec fn ones_complement_fold(s: int) -> int {
    if s == 0 {
        0
    } else {
        (s - 1) % 0xffff + 1
    }
}

/// The checksum of `data`: the words are added in a 32-bit accumulator that
/// wraps, the carries are folded back in, and the result is complemented.
pub open spec fn spec_ip_checksum(data: Seq<u8>) -> u16 {
    (0xffff - ones_complement_fold(word_sum(data, word_count(data)) % 0x1_0000_0000)) as u16
}

proof fn lemma_word_bounds(data: Seq<u8>, i: int)
    requires
        0 <= i < word_count(data),
    ensures
        0 <= header_word(data, i) <= 0xffff,
{
}

proof fn lemma_fold_step(s: u32)
    requires
        s >> 16u32 != 0,
    ensures
        ((s & 0xffff) + (s >> 16u32)) < s,
        ((s & 0xffff) + (s >> 16u32)) > 0,
        ones_complement_fold(((s & 0xffff) + (s >> 16u32)) as int) == ones_complement_fold(s as int),
{
    let lo = s & 0xffff;
    let hi = s >> 16u32;
    assert(lo == s % 0x10000 && hi == s / 0x10000) by (bit_vector)
        requires
            lo == s & 0xffff,
            hi == s >> 16u32,
    ;
    assert(s == hi * 0x10000 + lo) by (nonlinear_arith)
        requires
            lo == s % 0x10000,
            hi == s / 0x10000,
    ;
    let t = lo + hi;
    assert(t == s - hi * 0xffff);
    assert(hi * 0xffff >= 0xffff) by (nonlinear_arith)
        requires
            hi >= 1,
    ;
    assert(((s as int) - 1) % 0xffff == ((t as int) - 1) % 0xffff) by (nonlinear_arith)
        requires
            t == s - hi * 0xffff,
            hi >= 1,
    {
        vstd::arithmetic::div_mod::lemma_mod_sub_multiples_vanish((s as int) - 1, 0xffff);
        vstd::arithmetic::div_mod::lemma_mod_multiples_vanish(-(hi as int), (t as int) - 1, 0xffff);
    }
}

/// The IPv4 header checksum of `data`.
pub fn ip_checksum(data: &[u8]) -> (checksum: u16)
    ensures
        checksum == spec_ip_checksum(data@),
{
    let len = data.len();
    let words = len / 2 + len % 2;
    let mut sum: u32 = 0;
    let mut i: usize = 0;
    while i < words
        invariant
            len == data@.len(),
            words == word_count(data@),
            0 <= i <= words,
            sum == word_sum(data@, i as nat) % 0x1_0000_0000,
        decreases words - i,
    {
        let word: u32 = if 2 * i + 1 < len {
            (data[2 * i] as u32) * 256 + data[2 * i + 1] as u32
        } else {
            (data[2 * i] as u32) * 256
        };
        proof {
            lemma_word_bounds(data@, i as int);
            vstd::arithmetic::div_mod::lemma_add_mod_noop(
                word_sum(data@, i as nat),
                word as int,
                0x1_0000_0000,
            );
            vstd::arithmetic::div_mod::lemma_mod_twice(word as int, 0x1_0000_0000);
        }
        sum = sum.wrapping_add(word);
        i = i + 1;
    }
    let ghost total = sum as int;
    while (sum >> 16u32) != 0
        invariant
            ones_complement_fold(sum as int) == ones_complement_fold(total),
            total > 0 ==> sum > 0,
            total == 0 ==> sum == 0,
        decreases sum,
    {
        proof {
            lemma_fold_step(sum);
        }
        sum = (sum & 0xffff) + (sum >> 16u32);
    }
    assert(sum < 0x10000) by (bit_vector)
        requires
            (sum >> 16u32) == 0,
    ;
    let result = !sum as u16;
    assert(result == 0xffff - sum) by (bit_vector)
        requires
            result == !sum as u16,
            sum < 0x10000,
    ;
    result
}

proof fn lemma_word_sum_bound(data: Seq<u8>, n: nat)
    requires
        n <= word_count(data),
    ensures
        0 <= word_sum(data, n) <= n * 0xffff,
    decreases n,
{
    if n > 0 {
        lemma_word_sum_bound(data, (n - 1) as nat);
        lemma_word_bounds(data, n - 1);
    }
}

proof fn lemma_word_sum_update(data: Seq<u8>, k: int, hi: u8, lo: u8, n: nat)
    requires
        0 <= k,
        2 * k + 1 < data.len(),
        data[2 * k] == 0,
        data[2 * k + 1] == 0,
        n <= word_count(data),
    ensures
        word_sum(data.update(2 * k, hi).update(2 * k + 1, lo), n) == word_sum(data, n) + (if n > k {
            hi * 256 + lo
        } else {
            0
        }),
    decreases n,
{
    let updated = data.update(2 * k, hi).update(2 * k + 1, lo);
    if n > 0 {
        lemma_word_sum_update(data, k, hi, lo, (n - 1) as nat);
        let i = n - 1;
        if i == k {
            assert(header_word(updated, i) == hi * 256 + lo);
            assert(header_word(data, i) == 0);
        } else {
            assert(header_word(updated, i) == header_word(data, i));
        }
    }
}

/// Checksums complete a header: when a header whose checksum field (the word at
/// index `k`) holds zero has the checksum of that header written into that
/// field, big-endian, the checksum of the completed header is zero, which is
/// what a receiver verifies.
pub proof fn lemma_checksum_completes_header(header: Seq<u8>, k: int)
    requires
        0 <= k,
        2 * k + 1 < header.len(),
        header.len() <= 0x10000,
        header[2 * k] == 0,
        header[2 * k + 1] == 0,
    ensures
        ({
            let c = spec_ip_checksum(header);
            spec_ip_checksum(header.update(2 * k, (c / 256) as u8).update(2 * k + 1, (c % 256) as u8))
                == 0
        }),
{
    let c = spec_ip_checksum(header);
    let hi = (c / 256) as u8;
    let lo = (c % 256) as u8;
    let completed = header.update(2 * k, hi).update(2 * k + 1, lo);
    let n = word_count(header);
    assert(word_count(completed) == n);
    lemma_word_sum_bound(header, n);
    assert(n * 0xffff <= 0x8000 * 0xffff) by (nonlinear_arith)
        requires
            n <= 0x8000,
    ;
    lemma_word_sum_update(header, k, hi, lo, n);
    let s = word_sum(header, n);
    assert(k < n);
    assert(s % 0x1_0000_0000 == s) by {
        vstd::arithmetic::div_mod::lemma_small_mod(s as nat, 0x1_0000_0000);
    }
    let f = ones_complement_fold(s);
    assert(hi * 256 + lo == c);
    assert(c == 0xffff - f);
    let t = s + c;
    assert(t % 0x1_0000_0000 == t) by {
        vstd::arithmetic::div_mod::lemma_small_mod(t as nat, 0x1_0000_0000);
    }
    if s == 0 {
        assert(t == 0xffff);
    } else {
        assert((t - 1) % 0xffff == 0xfffe) by (nonlinear_arith)
            requires
                s > 0,
                f == (s - 1) % 0xffff + 1,
                t == s + 0xffff - f,
        {
            vstd::arithmetic::div_mod::lemma_fundamental_div_mod(s - 1, 0xffff);
            let q = (s - 1) / 0xffff;
            assert(t - 1 == q * 0xffff + 0xfffe);
            vstd::arithmetic::div_mod::lemma_mod_multiples_vanish(q, 0xfffe, 0xffff);
            vstd::arithmetic::div_mod::lemma_small_mod(0xfffe, 0xffff);
        }
    }
}

} // verus!
