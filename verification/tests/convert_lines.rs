use convertrservtoatheme::flags::access_letter_string;
use convertrservtoatheme::flags::account_flag_string;
use convertrservtoatheme::flags::channel_flag_string;
use convertrservtoatheme::flags::contains_char;
use convertrservtoatheme::flags::mode_lock;
use convertrservtoatheme::numfmt::i64_dec;
use convertrservtoatheme::numfmt::u64_dec;
use convertrservtoatheme::records::account_line;
use convertrservtoatheme::records::ban_lines;
use convertrservtoatheme::records::channel_lines;
use convertrservtoatheme::records::convert;
use convertrservtoatheme::records::header_lines;
use convertrservtoatheme::records::member_line;
use convertrservtoatheme::records::nick_line;
use convertrservtoatheme::records::AccountRow;
use convertrservtoatheme::records::BanRow;
use convertrservtoatheme::records::ChannelRow;
use convertrservtoatheme::records::MemberRow;
use convertrservtoatheme::records::NickRow;

#[test]
fn u64_dec_renders_digits() {
    assert_eq!(u64_dec(0), "0");
    assert_eq!(u64_dec(7), "7");
    assert_eq!(u64_dec(10), "10");
    assert_eq!(u64_dec(272), "272");
    assert_eq!(u64_dec(1000), "1000");
    assert_eq!(u64_dec(u64::MAX), "18446744073709551615");
}

#[test]
fn i64_dec_renders_signed_values() {
    assert_eq!(i64_dec(0), "0");
    assert_eq!(i64_dec(2000), "2000");
    assert_eq!(i64_dec(-5), "-5");
    assert_eq!(i64_dec(i64::MAX), "9223372036854775807");
    assert_eq!(i64_dec(i64::MIN), "-9223372036854775808");
}

#[test]
fn account_flag_string_marker_and_letters() {
    assert_eq!(account_flag_string(0), "C");
    assert_eq!(account_flag_string(0x0002), "Cps");
    assert_eq!(account_flag_string(0x0004), "Cb");
    assert_eq!(account_flag_string(0x0008), "Cn");
    assert_eq!(account_flag_string(0x0010), "Cm");
    assert_eq!(account_flag_string(0x001e), "Cpsbnm");
    // the suspended bit has no output letter
    assert_eq!(account_flag_string(0x0001), "C");
}

#[test]
fn account_flag_string_private_nomemos() {
    // PRIVATE|NOMEMOS: marker + "ps" + "m", nothing else, in that order
    assert_eq!(account_flag_string(0x0002 | 0x0010), "Cpsm");
}

#[test]
fn channel_flag_string_letters() {
    assert_eq!(channel_flag_string(0), "");
    assert_eq!(channel_flag_string(0x0004), "g");
    assert_eq!(channel_flag_string(0x0008), "v");
    assert_eq!(channel_flag_string(0x0010), "z");
    assert_eq!(channel_flag_string(0x0004 | 0x0008 | 0x0010), "gvz");
}

#[test]
fn contains_char_finds_letters() {
    assert!(contains_char("nt", 'n'));
    assert!(contains_char("nt", 't'));
    assert!(!contains_char("nt", 'i'));
    assert!(!contains_char("", 'i'));
}

#[test]
fn mode_lock_bits_match_letters() {
    assert_eq!(mode_lock(""), 0);
    assert_eq!(mode_lock("i"), 0x1);
    assert_eq!(mode_lock("m"), 0x8);
    assert_eq!(mode_lock("n"), 0x10);
    assert_eq!(mode_lock("p"), 0x40);
    assert_eq!(mode_lock("s"), 0x80);
    assert_eq!(mode_lock("t"), 0x100);
    assert_eq!(mode_lock("nt"), 0x110);
    assert_eq!(mode_lock("imnpst"), 0x1d9);
    // unrecognized letters contribute nothing
    assert_eq!(mode_lock("xyzkl"), 0);
    // presence, not position or multiplicity
    assert_eq!(mode_lock("tn"), mode_lock("nt"));
    assert_eq!(mode_lock("ttt"), 0x100);
}

#[test]
fn access_letters_at_each_threshold() {
    assert_eq!(access_letter_string(0, 0), "");
    assert_eq!(access_letter_string(1, 0), "iv");
    assert_eq!(access_letter_string(9, 0), "iv");
    assert_eq!(access_letter_string(10, 0), "ivr");
    assert_eq!(access_letter_string(49, 0), "ivr");
    assert_eq!(access_letter_string(50, 0), "ivrot");
    assert_eq!(access_letter_string(99, 0), "ivrot");
    assert_eq!(access_letter_string(100, 0), "ivrotA");
    assert_eq!(access_letter_string(139, 0), "ivrotA");
    assert_eq!(access_letter_string(140, 0), "ivrotAR");
    assert_eq!(access_letter_string(149, 0), "ivrotAR");
    assert_eq!(access_letter_string(150, 0), "ivrotARf");
    assert_eq!(access_letter_string(189, 0), "ivrotARf");
    assert_eq!(access_letter_string(190, 0), "ivrotARfs");
    assert_eq!(access_letter_string(199, 0), "ivrotARfs");
    assert_eq!(access_letter_string(200, 0), "ivrotARfsF");
    assert_eq!(access_letter_string(255, 0), "ivrotARfsF");
    assert_eq!(access_letter_string(-3, 0), "");
}

#[test]
fn access_letters_cumulative_by_level() {
    // every letter present at a lower threshold stays present higher up
    let levels = [1, 10, 50, 100, 140, 150, 190, 200];
    for w in levels.windows(2) {
        let lower = access_letter_string(w[0], 0);
        let higher = access_letter_string(w[1], 0);
        for c in lower.chars() {
            assert!(higher.contains(c));
        }
    }
}

#[test]
fn access_letters_member_flag_bits() {
    assert_eq!(access_letter_string(0, 0x002), "V");
    assert_eq!(access_letter_string(0, 0x001), "O");
    assert_eq!(access_letter_string(0, 0x003), "VO");
    assert_eq!(access_letter_string(50, 0x003), "ivrotVO");
}

#[test]
fn account_line_empty_email_gets_placeholder() {
    let a = AccountRow {
        username: "alice".to_string(),
        password: "hunter2".to_string(),
        email: "".to_string(),
        reg_time: 1,
        last_time: 2,
        flags: 0,
    };
    assert_eq!(account_line(&a), "MU alice hunter2 noemail 1 2 +C");
}

#[test]
fn account_line_private_nomemos() {
    let a = AccountRow {
        username: "someuser".to_string(),
        password: "pw".to_string(),
        email: "a@example.net".to_string(),
        reg_time: 100,
        last_time: 200,
        flags: 0x0002 | 0x0010,
    };
    assert_eq!(account_line(&a), "MU someuser pw a@example.net 100 200 +Cpsm");
}

#[test]
fn account_line_negative_timestamps() {
    let a = AccountRow {
        username: "u".to_string(),
        password: "p".to_string(),
        email: "e".to_string(),
        reg_time: -1,
        last_time: -20,
        flags: 0,
    };
    assert_eq!(account_line(&a), "MU u p e -1 -20 +C");
}

#[test]
fn nick_line_puts_username_first() {
    let n = NickRow {
        nickname: "nick".to_string(),
        username: "owner".to_string(),
        reg_time: 10,
        last_time: 20,
    };
    assert_eq!(nick_line(&n), "MN owner nick 10 20");
}

#[test]
fn channel_lines_topic_roundtrip() {
    // topic set, url empty, tsinfo not positive, no flag bits
    let c = ChannelRow {
        chname: "#foo".to_string(),
        topic: "topic text".to_string(),
        url: "".to_string(),
        enforcemodes: "nt".to_string(),
        tsinfo: 0,
        reg_time: 1000,
        last_time: 2000,
        flags: 0x0,
    };
    let lines = channel_lines(&c);
    assert_eq!(lines.len(), 4);
    // mode lock is NOEXT|TOPIC = 0x110 = 272, flag string is empty
    assert_eq!(lines[0], "MC #foo 1000 2000 + 272 0 0");
    assert_eq!(lines[1], "MDC #foo private:topic:text topic text");
    assert_eq!(lines[2], "MDC #foo private:topic:setter ChanServ");
    assert_eq!(lines[3], "MDC #foo private:topic:ts 2000");
}

#[test]
fn channel_lines_bare_channel() {
    let c = ChannelRow {
        chname: "#bar".to_string(),
        topic: "".to_string(),
        url: "".to_string(),
        enforcemodes: "".to_string(),
        tsinfo: 0,
        reg_time: 5,
        last_time: 6,
        flags: 0,
    };
    let lines = channel_lines(&c);
    assert_eq!(lines.len(), 1);
    assert_eq!(lines[0], "MC #bar 5 6 + 0 0 0");
}

#[test]
fn channel_lines_all_metadata() {
    let c = ChannelRow {
        chname: "#baz".to_string(),
        topic: "hello".to_string(),
        url: "http://example.net".to_string(),
        enforcemodes: "i".to_string(),
        tsinfo: 777,
        reg_time: 1,
        last_time: 2,
        flags: 0x0004 | 0x0008 | 0x0010,
    };
    let lines = channel_lines(&c);
    assert_eq!(lines.len(), 6);
    assert_eq!(lines[0], "MC #baz 1 2 +gvz 1 0 0");
    assert_eq!(lines[1], "MDC #baz private:topic:text hello");
    assert_eq!(lines[2], "MDC #baz private:topic:setter ChanServ");
    assert_eq!(lines[3], "MDC #baz private:topic:ts 2");
    assert_eq!(lines[4], "MDC #baz url http://example.net");
    assert_eq!(lines[5], "MDC #baz private:channelts 777");
}

#[test]
fn channel_lines_negative_tsinfo_omitted() {
    let c = ChannelRow {
        chname: "#neg".to_string(),
        topic: "".to_string(),
        url: "".to_string(),
        enforcemodes: "".to_string(),
        tsinfo: -4,
        reg_time: 1,
        last_time: 2,
        flags: 0,
    };
    let lines = channel_lines(&c);
    assert_eq!(lines.len(), 1);
}

#[test]
fn member_line_level_and_flags() {
    let m = MemberRow {
        chname: "#foo".to_string(),
        username: "bob".to_string(),
        level: 10,
        flags: 0,
    };
    assert_eq!(member_line(&m), "CA #foo bob +ivr 0");
    let m2 = MemberRow {
        chname: "#foo".to_string(),
        username: "carol".to_string(),
        level: 200,
        flags: 0x003,
    };
    assert_eq!(member_line(&m2), "CA #foo carol +ivrotARfsFVO 0");
}

#[test]
fn ban_lines_empty_reason() {
    let b = BanRow {
        chname: "#foo".to_string(),
        mask: "*!*@bad.example".to_string(),
        reason: "".to_string(),
    };
    let lines = ban_lines(&b);
    assert_eq!(lines.len(), 1);
    assert_eq!(lines[0], "CA #foo *!*@bad.example +b 0");
}

#[test]
fn ban_lines_with_reason() {
    let b = BanRow {
        chname: "#foo".to_string(),
        mask: "*!*@spam.example".to_string(),
        reason: "spam and flooding".to_string(),
    };
    let lines = ban_lines(&b);
    assert_eq!(lines.len(), 2);
    assert_eq!(lines[0], "CA #foo *!*@spam.example +b 0");
    assert_eq!(lines[1], "MDA #foo:*!*@spam.example reason spam and flooding");
}

#[test]
fn header_lines_are_fixed() {
    let lines = header_lines();
    assert_eq!(lines.len(), 2);
    assert_eq!(lines[0], "DBV 8");
    assert_eq!(lines[1], "CF +AFORVbfiorstv");
}

#[test]
fn convert_empty_snapshot_emits_only_headers() {
    let lines = convert(&vec![], &vec![], &vec![], &vec![], &vec![]);
    assert_eq!(lines.len(), 2);
    assert_eq!(lines[0], "DBV 8");
    assert_eq!(lines[1], "CF +AFORVbfiorstv");
}

#[test]
fn convert_orders_tables_and_rows() {
    let accounts = vec![
        AccountRow {
            username: "alice".to_string(),
            password: "pw1".to_string(),
            email: "".to_string(),
            reg_time: 1,
            last_time: 2,
            flags: 0x0010,
        },
        AccountRow {
            username: "bob".to_string(),
            password: "pw2".to_string(),
            email: "b@example.net".to_string(),
            reg_time: 3,
            last_time: 4,
            flags: 0,
        },
    ];
    let nicks = vec![NickRow {
        nickname: "al".to_string(),
        username: "alice".to_string(),
        reg_time: 5,
        last_time: 6,
    }];
    let channels = vec![ChannelRow {
        chname: "#foo".to_string(),
        topic: "hi".to_string(),
        url: "".to_string(),
        enforcemodes: "t".to_string(),
        tsinfo: 9,
        reg_time: 7,
        last_time: 8,
        flags: 0x0004,
    }];
    let members = vec![MemberRow {
        chname: "#foo".to_string(),
        username: "alice".to_string(),
        level: 50,
        flags: 0x002,
    }];
    let bans = vec![BanRow {
        chname: "#foo".to_string(),
        mask: "*!*@x".to_string(),
        reason: "bad".to_string(),
    }];
    let lines = convert(&accounts, &nicks, &channels, &members, &bans);
    let expected = vec![
        "DBV 8",
        "CF +AFORVbfiorstv",
        "MU alice pw1 noemail 1 2 +Cm",
        "MU bob pw2 b@example.net 3 4 +C",
        "MN alice al 5 6",
        "MC #foo 7 8 +g 256 0 0",
        "MDC #foo private:topic:text hi",
        "MDC #foo private:topic:setter ChanServ",
        "MDC #foo private:topic:ts 8",
        "MDC #foo private:channelts 9",
        "CA #foo alice +ivrotV 0",
        "CA #foo *!*@x +b 0",
        "MDA #foo:*!*@x reason bad",
    ];
    assert_eq!(lines.len(), expected.len());
    for (line, want) in lines.iter().zip(expected.iter()) {
        assert_eq!(line, want);
    }
}
