//! Flag-bit and access-level translation: ratbox-services bitmasks become
//! atheme-services flag letters, enforced-mode letters become the numeric
//! mode-lock bitmask, and membership levels become privilege letters.

use vstd::prelude::*;

verus! {

// ratbox-services account flag bits.
pub const US_FLAGS_PRIVATE: u32 = 0x0002;
pub const US_FLAGS_NEVERLOGGEDIN: u32 = 0x0004;
pub const US_FLAGS_NOACCESS: u32 = 0x0008;
pub const US_FLAGS_NOMEMOS: u32 = 0x0010;

// ratbox-services channel flag bits.
pub const CS_FLAGS_AUTOJOIN: u32 = 0x0004;
pub const CS_FLAGS_WARNOVERRIDE: u32 = 0x0008;
pub const CS_FLAGS_RESTRICTOPS: u32 = 0x0010;

// ratbox-services channel member flag bits.
pub const CS_MEMBER_AUTOOP: u32 = 0x001;
pub const CS_MEMBER_AUTOVOICE: u32 = 0x002;

// atheme-services channel mode bits (the mode-lock encoding).
pub const CMODE_INVITE: u32 = 0x00000001;
pub const CMODE_MOD: u32 = 0x00000008;
pub const CMODE_NOEXT: u32 = 0x00000010;
pub const CMODE_PRIV: u32 = 0x00000040;
pub const CMODE_SEC: u32 = 0x00000080;
pub const CMODE_TOPIC: u32 = 0x00000100;

/// The account flag string: the fixed marker letter `C`, then one
/// contribution per account flag bit, in this fixed order.
pub open spec fn account_flags_spec(flags: u32) -> Seq<char> {
    seq!['C'] + (if flags & US_FLAGS_PRIVATE != 0 {
        seq!['p', 's']
    } else {
        Seq::<char>::empty()
    }) + (if flags & US_FLAGS_NEVERLOGGEDIN != 0 {
        seq!['b']
    } else {
        Seq::<char>::empty()
    }) + (if flags & US_FLAGS_NOACCESS != 0 {
        seq!['n']
    } else {
        Seq::<char>::empty()
    }) + (if flags & US_FLAGS_NOMEMOS != 0 {
        seq!['m']
    } else {
        Seq::<char>::empty()
    })
}

/// Builds the account flag string for an account's flag bitmask.
pub fn account_flag_string(flags: u32) -> (r: String)
    ensures
        r@ == account_flags_spec(flags),
{
    proof {
        reveal_strlit("C");
        reveal_strlit("ps");
        reveal_strlit("b");
        reveal_strlit("n");
        reveal_strlit("m");
    }
    let mut r = String::from_str("C");
    if flags & US_FLAGS_PRIVATE != 0 {
        r.append("ps");
    }
    if flags & US_FLAGS_NEVERLOGGEDIN != 0 {
        r.append("b");
    }
    if flags & US_FLAGS_NOACCESS != 0 {
        r.append("n");
    }
    if flags & US_FLAGS_NOMEMOS != 0 {
        r.append("m");
    }
    proof {
        assert(r@ =~= account_flags_spec(flags));
    }
    r
}

/// The channel flag string: one letter per recognized channel flag bit,
/// in this fixed order.
pub open spec fn channel_flags_spec(flags: u32) -> Seq<char> {
    (if flags & CS_FLAGS_AUTOJOIN != 0 {
        seq!['g']
    } else {
        Seq::<char>::empty()
    }) + (if flags & CS_FLAGS_WARNOVERRIDE != 0 {
        seq!['v']
    } else {
        Seq::<char>::empty()
    }) + (if flags & CS_FLAGS_RESTRICTOPS != 0 {
        seq!['z']
    } else {
        Seq::<char>::empty()
    })
}

/// Builds the channel flag string for a channel's flag bitmask.
pub fn channel_flag_string(flags: u32) -> (r: String)
    ensures
        r@ == channel_flags_spec(flags),
{
    proof {
        reveal_strlit("g");
        reveal_strlit("v");
        reveal_strlit("z");
    }
    let mut r = String::new();
    if flags & CS_FLAGS_AUTOJOIN != 0 {
        r.append("g");
    }
    if flags & CS_FLAGS_WARNOVERRIDE != 0 {
        r.append("v");
    }
    if flags & CS_FLAGS_RESTRICTOPS != 0 {
        r.append("z");
    }
    proof {
        assert(r@ =~= channel_flags_spec(flags));
    }
    r
}

/// The mode-lock bitmask: one atheme mode bit per recognized mode letter
/// that occurs anywhere in the enforced-modes string.
pub open spec fn mode_lock_spec(modes: Seq<char>) -> u32 {
    (if modes.contains('i') {
        CMODE_INVITE
    } else {
        0
    }) | (if modes.contains('m') {
        CMODE_MOD
    } else {
        0
    }) | (if modes.contains('n') {
        CMODE_NOEXT
    } else {
        0
    }) | (if modes.contains('p') {
        CMODE_PRIV
    } else {
        0
    }) | (if modes.contains('s') {
        CMODE_SEC
    } else {
        0
    }) | (if modes.contains('t') {
        CMODE_TOPIC
    } else {
        0
    })
}

/// Whether the character `c` occurs anywhere in `s`.
pub fn contains_char(s: &str, c: char) -> (r: bool)
    ensures
        r == s@.contains(c),
{
    let n = s.unicode_len();
    let mut i: usize = 0;
    while i < n
        invariant
            i <= n,
            n == s@.len(),
            forall|j: int| 0 <= j < i ==> s@[j] != c,
        decreases n - i,
    {
        if s.get_char(i) == c {
            proof {
                assert(s@[i as int] == c);
            }
            return true;
        }
        i = i + 1;
    }
    false
}

/// Computes the mode-lock bitmask from an enforced-modes string.
pub fn mode_lock(modes: &str) -> (r: u32)
    ensures
        r == mode_lock_spec(modes@),
{
    let ci = contains_char(modes, 'i');
    let cm = contains_char(modes, 'm');
    let cn = contains_char(modes, 'n');
    let cp = contains_char(modes, 'p');
    let cs = contains_char(modes, 's');
    let ct = contains_char(modes, 't');
    (if ci {
        CMODE_INVITE
    } else {
        0
    }) | (if cm {
        CMODE_MOD
    } else {
        0
    }) | (if cn {
        CMODE_NOEXT
    } else {
        0
    }) | (if cp {
        CMODE_PRIV
    } else {
        0
    }) | (if cs {
        CMODE_SEC
    } else {
        0
    }) | (if ct {
        CMODE_TOPIC
    } else {
        0
    })
}

/// The access-level letter string for a channel membership: cumulative
/// threshold letters by level, then the auto-voice and auto-op letters
/// by member flag bits.
pub open spec fn access_letters_spec(level: i32, flags: u32) -> Seq<char> {
    (if level >= 1 {
        seq!['i', 'v']
    } else {
        Seq::<char>::empty()
    }) + (if level >= 10 {
        seq!['r']
    } else {
        Seq::<char>::empty()
    }) + (if level >= 50 {
        seq!['o', 't']
    } else {
        Seq::<char>::empty()
    }) + (if level >= 100 {
        seq!['A']
    } else {
        Seq::<char>::empty()
    }) + (if level >= 140 {
        seq!['R']
    } else {
        Seq::<char>::empty()
    }) + (if level >= 150 {
        seq!['f']
    } else {
        Seq::<char>::empty()
    }) + (if level >= 190 {
        seq!['s']
    } else {
        Seq::<char>::empty()
    }) + (if level >= 200 {
        seq!['F']
    } else {
        Seq::<char>::empty()
    }) + (if flags & CS_MEMBER_AUTOVOICE != 0 {
        seq!['V']
    } else {
        Seq::<char>::empty()
    }) + (if flags & CS_MEMBER_AUTOOP != 0 {
        seq!['O']
    } else {
        Seq::<char>::empty()
    })
}

/// Builds the access-level letter string for a membership row.
pub fn access_letter_string(level: i32, flags: u32) -> (r: String)
    ensures
        r@ == access_letters_spec(level, flags),
{
    proof {
        reveal_strlit("iv");
        reveal_strlit("r");
        reveal_strlit("ot");
        reveal_strlit("A");
        reveal_strlit("R");
        reveal_strlit("f");
        reveal_strlit("s");
        reveal_strlit("F");
        reveal_strlit("V");
        reveal_strlit("O");
    }
    let mut r = String::new();
    if level >= 1 {
        r.append("iv");
    }
    if level >= 10 {
        r.append("r");
    }
    if level >= 50 {
        r.append("ot");
    }
    if level >= 100 {
        r.append("A");
    }
    if level >= 140 {
        r.append("R");
    }
    if level >= 150 {
        r.append("f");
    }
    if level >= 190 {
        r.append("s");
    }
    if level >= 200 {
        r.append("F");
    }
    if flags & CS_MEMBER_AUTOVOICE != 0 {
        r.append("V");
    }
    if flags & CS_MEMBER_AUTOOP != 0 {
        r.append("O");
    }
    proof {
        assert(r@ =~= access_letters_spec(level, flags));
    }
    r
}

/// Law: the account flag string always starts with the fixed marker
/// letter, and contains each optional letter if and only if the
/// corresponding source flag bit is set.
pub proof fn lemma_account_flags_letters(flags: u32)
    ensures
        account_flags_spec(flags).len() >= 1,
        account_flags_spec(flags)[0] == 'C',
        account_flags_spec(flags).contains('p') <==> flags & US_FLAGS_PRIVATE != 0,
        account_flags_spec(flags).contains('s') <==> flags & US_FLAGS_PRIVATE != 0,
        account_flags_spec(flags).contains('b') <==> flags & US_FLAGS_NEVERLOGGEDIN != 0,
        account_flags_spec(flags).contains('n') <==> flags & US_FLAGS_NOACCESS != 0,
        account_flags_spec(flags).contains('m') <==> flags & US_FLAGS_NOMEMOS != 0,
{
    broadcast use vstd::seq_lib::lemma_seq_concat_contains_all_elements;
    broadcast use vstd::seq_lib::lemma_seq_empty_contains_nothing;

    assert(seq!['C'][0] == 'C');
    assert(seq!['p', 's'][0] == 'p');
    assert(seq!['p', 's'][1] == 's');
    assert(seq!['b'][0] == 'b');
    assert(seq!['n'][0] == 'n');
    assert(seq!['m'][0] == 'm');
}

/// Law: access-level letters are cumulative: the letters granted at a
/// level threshold only ever appear together with the letters of every
/// lower threshold, and the two letters of a shared threshold appear
/// together.
pub proof fn lemma_access_letters_cumulative(level: i32, flags: u32)
    ensures
        access_letters_spec(level, flags).contains('F') ==> access_letters_spec(
            level,
            flags,
        ).contains('s'),
        access_letters_spec(level, flags).contains('s') ==> access_letters_spec(
            level,
            flags,
        ).contains('f'),
        access_letters_spec(level, flags).contains('f') ==> access_letters_spec(
            level,
            flags,
        ).contains('R'),
        access_letters_spec(level, flags).contains('R') ==> access_letters_spec(
            level,
            flags,
        ).contains('A'),
        access_letters_spec(level, flags).contains('A') ==> access_letters_spec(
            level,
            flags,
        ).contains('o'),
        access_letters_spec(level, flags).contains('o') ==> access_letters_spec(
            level,
            flags,
        ).contains('r'),
        access_letters_spec(level, flags).contains('r') ==> access_letters_spec(
            level,
            flags,
        ).contains('i'),
        access_letters_spec(level, flags).contains('o') <==> access_letters_spec(
            level,
            flags,
        ).contains('t'),
        access_letters_spec(level, flags).contains('i') <==> access_letters_spec(
            level,
            flags,
        ).contains('v'),
{
    broadcast use vstd::seq_lib::lemma_seq_concat_contains_all_elements;
    broadcast use vstd::seq_lib::lemma_seq_empty_contains_nothing;

    assert(seq!['i', 'v'][0] == 'i');
    assert(seq!['i', 'v'][1] == 'v');
    assert(seq!['r'][0] == 'r');
    assert(seq!['o', 't'][0] == 'o');
    assert(seq!['o', 't'][1] == 't');
    assert(seq!['A'][0] == 'A');
    assert(seq!['R'][0] == 'R');
    assert(seq!['f'][0] == 'f');
    assert(seq!['s'][0] == 's');
    assert(seq!['F'][0] == 'F');
    assert(seq!['V'][0] == 'V');
    assert(seq!['O'][0] == 'O');
}

/// Law: a mode-lock bit is set in the numeric output if and only if the
/// corresponding mode letter occurs somewhere in the enforced-modes
/// string.
pub proof fn lemma_mode_lock_bits(modes: Seq<char>)
    ensures
        mode_lock_spec(modes) & CMODE_INVITE != 0 <==> modes.contains('i'),
        mode_lock_spec(modes) & CMODE_MOD != 0 <==> modes.contains('m'),
        mode_lock_spec(modes) & CMODE_NOEXT != 0 <==> modes.contains('n'),
        mode_lock_spec(modes) & CMODE_PRIV != 0 <==> modes.contains('p'),
        mode_lock_spec(modes) & CMODE_SEC != 0 <==> modes.contains('s'),
        mode_lock_spec(modes) & CMODE_TOPIC != 0 <==> modes.contains('t'),
{
    let a: u32 = if modes.contains('i') {
        CMODE_INVITE
    } else {
        0
    };
    let b: u32 = if modes.contains('m') {
        CMODE_MOD
    } else {
        0
    };
    let c: u32 = if modes.contains('n') {
        CMODE_NOEXT
    } else {
        0
    };
    let d: u32 = if modes.contains('p') {
        CMODE_PRIV
    } else {
        0
    };
    let e: u32 = if modes.contains('s') {
        CMODE_SEC
    } else {
        0
    };
    let f: u32 = if modes.contains('t') {
        CMODE_TOPIC
    } else {
        0
    };
    assert(mode_lock_spec(modes) == a | b | c | d | e | f);
    let v: u32 = a | b | c | d | e | f;
    assert(v & 0x1u32 != 0 <==> a != 0) by (bit_vector)
        requires
            v == a | b | c | d | e | f,
            a == 0x1u32 || a == 0u32,
            b == 0x8u32 || b == 0u32,
            c == 0x10u32 || c == 0u32,
            d == 0x40u32 || d == 0u32,
            e == 0x80u32 || e == 0u32,
            f == 0x100u32 || f == 0u32,
    ;
    assert(v & 0x8u32 != 0 <==> b != 0) by (bit_vector)
        requires
            v == a | b | c | d | e | f,
            a == 0x1u32 || a == 0u32,
            b == 0x8u32 || b == 0u32,
            c == 0x10u32 || c == 0u32,
            d == 0x40u32 || d == 0u32,
            e == 0x80u32 || e == 0u32,
            f == 0x100u32 || f == 0u32,
    ;
    assert(v & 0x10u32 != 0 <==> c != 0) by (bit_vector)
        requires
            v == a | b | c | d | e | f,
            a == 0x1u32 || a == 0u32,
            b == 0x8u32 || b == 0u32,
            c == 0x10u32 || c == 0u32,
            d == 0x40u32 || d == 0u32,
            e == 0x80u32 || e == 0u32,
            f == 0x100u32 || f == 0u32,
    ;
    assert(v & 0x40u32 != 0 <==> d != 0) by (bit_vector)
        requires
            v == a | b | c | d | e | f,
            a == 0x1u32 || a == 0u32,
            b == 0x8u32 || b == 0u32,
            c == 0x10u32 || c == 0u32,
            d == 0x40u32 || d == 0u32,
            e == 0x80u32 || e == 0u32,
            f == 0x100u32 || f == 0u32,
    ;
    assert(v & 0x80u32 != 0 <==> e != 0) by (bit_vector)
        requires
            v == a | b | c | d | e | f,
            a == 0x1u32 || a == 0u32,
            b == 0x8u32 || b == 0u32,
            c == 0x10u32 || c == 0u32,
            d == 0x40u32 || d == 0u32,
            e == 0x80u32 || e == 0u32,
            f == 0x100u32 || f == 0u32,
    ;
    assert(v & 0x100u32 != 0 <==> f != 0) by (bit_vector)
        requires
            v == a | b | c | d | e | f,
            a == 0x1u32 || a == 0u32,
            b == 0x8u32 || b == 0u32,
            c == 0x10u32 || c == 0u32,
            d == 0x40u32 || d == 0u32,
            e == 0x80u32 || e == 0u32,
            f == 0x100u32 || f == 0u32,
    ;
}

} // verus!
