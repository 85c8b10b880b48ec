//! The source rows and the output lines built from them.

use crate::flags::access_letters_spec;
use crate::flags::access_letter_string;
use crate::flags::account_flags_spec;
use crate::flags::account_flag_string;
use crate::flags::channel_flags_spec;
use crate::flags::channel_flag_string;
use crate::flags::mode_lock;
use crate::flags::mode_lock_spec;
use crate::numfmt::i64_dec;
use crate::numfmt::spec_i64_dec;
use crate::numfmt::spec_u64_dec;
use crate::numfmt::u64_dec;
use vstd::prelude::*;

verus! {

/// One row of the source `users` table.
pub struct AccountRow {
    pub username: String,
    pub password: String,
    pub email: String,
    pub reg_time: i64,
    pub last_time: i64,
    pub flags: u32,
}

/// One row of the source `nicks` table.
pub struct NickRow {
    pub nickname: String,
    pub username: String,
    pub reg_time: i64,
    pub last_time: i64,
}

/// One row of the source `channels` table.
pub struct ChannelRow {
    pub chname: String,
    pub topic: String,
    pub url: String,
    pub enforcemodes: String,
    pub tsinfo: i64,
    pub reg_time: i64,
    pub last_time: i64,
    pub flags: u32,
}

/// One row of the source `members` table.
pub struct MemberRow {
    pub chname: String,
    pub username: String,
    pub level: i32,
    pub flags: u32,
}

/// One row of the source `bans` table.
pub struct BanRow {
    pub chname: String,
    pub mask: String,
    pub reason: String,
}

/// The email field of an account record: the stored address, or the
/// literal placeholder when the stored address is empty.
pub open spec fn email_field_spec(email: Seq<char>) -> Seq<char> {
    if email.len() == 0 {
        "noemail"@
    } else {
        email
    }
}

/// The `MU` (account) output line for one account row.
pub open spec fn account_line_spec(a: AccountRow) -> Seq<char> {
    "MU "@ + a.username@ + " "@ + a.password@ + " "@ + email_field_spec(a.email@) + " "@
        + spec_i64_dec(a.reg_time as int) + " "@ + spec_i64_dec(a.last_time as int) + " +"@
        + account_flags_spec(a.flags)
}

/// Builds the `MU` output line for one account row.
pub fn account_line(a: &AccountRow) -> (r: String)
    ensures
        r@ == account_line_spec(*a),
{
    let mut r = String::from_str("MU ");
    r.append(a.username.as_str());
    r.append(" ");
    r.append(a.password.as_str());
    r.append(" ");
    if a.email.as_str().is_empty() {
        r.append("noemail");
    } else {
        r.append(a.email.as_str());
    }
    r.append(" ");
    let reg = i64_dec(a.reg_time);
    r.append(reg.as_str());
    r.append(" ");
    let last = i64_dec(a.last_time);
    r.append(last.as_str());
    r.append(" +");
    let fl = account_flag_string(a.flags);
    r.append(fl.as_str());
    proof {
        assert(r@ =~= account_line_spec(*a));
    }
    r
}

/// The `MN` (nickname) output line for one nickname row: the owning
/// username comes before the nickname, a fixed reordering of the
/// source's nickname-first column order.
pub open spec fn nick_line_spec(n: NickRow) -> Seq<char> {
    "MN "@ + n.username@ + " "@ + n.nickname@ + " "@ + spec_i64_dec(n.reg_time as int) + " "@
        + spec_i64_dec(n.last_time as int)
}

/// Builds the `MN` output line for one nickname row.
pub fn nick_line(n: &NickRow) -> (r: String)
    ensures
        r@ == nick_line_spec(*n),
{
    let mut r = String::from_str("MN ");
    r.append(n.username.as_str());
    r.append(" ");
    r.append(n.nickname.as_str());
    r.append(" ");
    let reg = i64_dec(n.reg_time);
    r.append(reg.as_str());
    r.append(" ");
    let last = i64_dec(n.last_time);
    r.append(last.as_str());
    proof {
        assert(r@ =~= nick_line_spec(*n));
    }
    r
}

/// The `MC` (channel) output line for one channel row: name, the two
/// timestamps, the channel flag string, the mode-lock bitmask in
/// decimal, and two zero fields reserved by the output format.
pub open spec fn mc_line_spec(c: ChannelRow) -> Seq<char> {
    "MC "@ + c.chname@ + " "@ + spec_i64_dec(c.reg_time as int) + " "@
        + spec_i64_dec(c.last_time as int) + " +"@ + channel_flags_spec(c.flags) + " "@
        + spec_u64_dec(mode_lock_spec(c.enforcemodes@) as nat) + " 0 0"@
}

/// The `MDC` line storing a non-empty channel topic text.
pub open spec fn topic_text_line_spec(c: ChannelRow) -> Seq<char> {
    "MDC "@ + c.chname@ + " private:topic:text "@ + c.topic@
}

/// The `MDC` line naming the fixed topic setter.
pub open spec fn topic_setter_line_spec(c: ChannelRow) -> Seq<char> {
    "MDC "@ + c.chname@ + " private:topic:setter ChanServ"@
}

/// The `MDC` line stamping the topic with the channel's last-seen time.
pub open spec fn topic_ts_line_spec(c: ChannelRow) -> Seq<char> {
    "MDC "@ + c.chname@ + " private:topic:ts "@ + spec_i64_dec(c.last_time as int)
}

/// The `MDC` line storing a non-empty channel url.
pub open spec fn url_line_spec(c: ChannelRow) -> Seq<char> {
    "MDC "@ + c.chname@ + " url "@ + c.url@
}

/// The `MDC` line storing a positive channel identity timestamp.
pub open spec fn channelts_line_spec(c: ChannelRow) -> Seq<char> {
    "MDC "@ + c.chname@ + " private:channelts "@ + spec_i64_dec(c.tsinfo as int)
}

/// All output lines for one channel row: the `MC` line, then three
/// topic metadata lines when the topic is non-empty, one url metadata
/// line when the url is non-empty, and one channel-timestamp metadata
/// line when the identity timestamp is positive.
pub open spec fn channel_lines_spec(c: ChannelRow) -> Seq<Seq<char>> {
    seq![mc_line_spec(c)] + (if c.topic@.len() > 0 {
        seq![topic_text_line_spec(c), topic_setter_line_spec(c), topic_ts_line_spec(c)]
    } else {
        Seq::<Seq<char>>::empty()
    }) + (if c.url@.len() > 0 {
        seq![url_line_spec(c)]
    } else {
        Seq::<Seq<char>>::empty()
    }) + (if c.tsinfo > 0 {
        seq![channelts_line_spec(c)]
    } else {
        Seq::<Seq<char>>::empty()
    })
}

fn mc_line(c: &ChannelRow) -> (r: String)
    ensures
        r@ == mc_line_spec(*c),
{
    let mut r = String::from_str("MC ");
    r.append(c.chname.as_str());
    r.append(" ");
    let reg = i64_dec(c.reg_time);
    r.append(reg.as_str());
    r.append(" ");
    let last = i64_dec(c.last_time);
    r.append(last.as_str());
    r.append(" +");
    let fl = channel_flag_string(c.flags);
    r.append(fl.as_str());
    r.append(" ");
    let ml = u64_dec(mode_lock(c.enforcemodes.as_str()) as u64);
    r.append(ml.as_str());
    r.append(" 0 0");
    proof {
        assert(r@ =~= mc_line_spec(*c));
    }
    r
}

/// Builds all output lines for one channel row.
pub fn channel_lines(c: &ChannelRow) -> (r: Vec<String>)
    ensures
        r.deep_view() == channel_lines_spec(*c),
{
    let mut r: Vec<String> = Vec::new();
    r.push(mc_line(c));
    if !c.topic.as_str().is_empty() {
        let mut line = String::from_str("MDC ");
        line.append(c.chname.as_str());
        line.append(" private:topic:text ");
        line.append(c.topic.as_str());
        proof {
            assert(line@ =~= topic_text_line_spec(*c));
        }
        r.push(line);
        let mut line = String::from_str("MDC ");
        line.append(c.chname.as_str());
        line.append(" private:topic:setter ChanServ");
        proof {
            assert(line@ =~= topic_setter_line_spec(*c));
        }
        r.push(line);
        let mut line = String::from_str("MDC ");
        line.append(c.chname.as_str());
        line.append(" private:topic:ts ");
        let last = i64_dec(c.last_time);
        line.append(last.as_str());
        proof {
            assert(line@ =~= topic_ts_line_spec(*c));
        }
        r.push(line);
    }
    if !c.url.as_str().is_empty() {
        let mut line = String::from_str("MDC ");
        line.append(c.chname.as_str());
        line.append(" url ");
        line.append(c.url.as_str());
        proof {
            assert(line@ =~= url_line_spec(*c));
        }
        r.push(line);
    }
    if c.tsinfo > 0 {
        let mut line = String::from_str("MDC ");
        line.append(c.chname.as_str());
        line.append(" private:channelts ");
        let ts = i64_dec(c.tsinfo);
        line.append(ts.as_str());
        proof {
            assert(line@ =~= channelts_line_spec(*c));
        }
        r.push(line);
    }
    proof {
        assert(r.deep_view() =~= channel_lines_spec(*c));
    }
    r
}

/// The `CA` (channel access) output line for one membership row.
pub open spec fn member_line_spec(m: MemberRow) -> Seq<char> {
    "CA "@ + m.chname@ + " "@ + m.username@ + " +"@ + access_letters_spec(m.level, m.flags)
        + " 0"@
}

/// Builds the `CA` output line for one membership row.
pub fn member_line(m: &MemberRow) -> (r: String)
    ensures
        r@ == member_line_spec(*m),
{
    let mut r = String::from_str("CA ");
    r.append(m.chname.as_str());
    r.append(" ");
    r.append(m.username.as_str());
    r.append(" +");
    let letters = access_letter_string(m.level, m.flags);
    r.append(letters.as_str());
    r.append(" 0");
    proof {
        assert(r@ =~= member_line_spec(*m));
    }
    r
}

/// The `CA` line recording a ban as an access entry with the single
/// ban letter.
pub open spec fn ban_access_line_spec(b: BanRow) -> Seq<char> {
    "CA "@ + b.chname@ + " "@ + b.mask@ + " +b 0"@
}

/// The `MDA` line storing a non-empty ban reason, keyed by the
/// composite channel:mask identifier.
pub open spec fn ban_reason_line_spec(b: BanRow) -> Seq<char> {
    "MDA "@ + b.chname@ + ":"@ + b.mask@ + " reason "@ + b.reason@
}

/// All output lines for one ban row: the `CA` access line, then one
/// reason metadata line when the reason is non-empty.
pub open spec fn ban_lines_spec(b: BanRow) -> Seq<Seq<char>> {
    seq![ban_access_line_spec(b)] + (if b.reason@.len() > 0 {
        seq![ban_reason_line_spec(b)]
    } else {
        Seq::<Seq<char>>::empty()
    })
}

/// Builds all output lines for one ban row.
pub fn ban_lines(b: &BanRow) -> (r: Vec<String>)
    ensures
        r.deep_view() == ban_lines_spec(*b),
{
    let mut r: Vec<String> = Vec::new();
    let mut line = String::from_str("CA ");
    line.append(b.chname.as_str());
    line.append(" ");
    line.append(b.mask.as_str());
    line.append(" +b 0");
    proof {
        assert(line@ =~= ban_access_line_spec(*b));
    }
    r.push(line);
    if !b.reason.as_str().is_empty() {
        let mut line = String::from_str("MDA ");
        line.append(b.chname.as_str());
        line.append(":");
        line.append(b.mask.as_str());
        line.append(" reason ");
        line.append(b.reason.as_str());
        proof {
            assert(line@ =~= ban_reason_line_spec(*b));
        }
        r.push(line);
    }
    proof {
        assert(r.deep_view() =~= ban_lines_spec(*b));
    }
    r
}

/// The two fixed header lines: the output format's version number and
/// its capability-flags string.
pub open spec fn headers_spec() -> Seq<Seq<char>> {
    seq!["DBV 8"@, "CF +AFORVbfiorstv"@]
}

/// Builds the two fixed header lines.
pub fn header_lines() -> (r: Vec<String>)
    ensures
        r.deep_view() == headers_spec(),
{
    let mut r: Vec<String> = Vec::new();
    r.push(String::from_str("DBV 8"));
    r.push(String::from_str("CF +AFORVbfiorstv"));
    proof {
        assert(r.deep_view() =~= headers_spec());
    }
    r
}

/// Law: the email field of an account record is never empty: an empty
/// stored address is replaced by the literal placeholder.
pub proof fn lemma_email_field_nonempty(email: Seq<char>)
    ensures
        email.len() == 0 ==> email_field_spec(email) == "noemail"@,
        email_field_spec(email).len() > 0,
{
    reveal_strlit("noemail");
}

/// Builds one `MU` line per account row, in row order.
pub fn account_table_lines(accounts: &Vec<AccountRow>) -> (r: Vec<String>)
    ensures
        r.deep_view() == accounts@.map_values(|a: AccountRow| account_line_spec(a)),
{
    let mut r: Vec<String> = Vec::new();
    let mut i: usize = 0;
    while i < accounts.len()
        invariant
            i <= accounts.len(),
            r.deep_view() == accounts@.subrange(0, i as int).map_values(
                |a: AccountRow| account_line_spec(a),
            ),
        decreases accounts.len() - i,
    {
        let ghost prev = r.deep_view();
        let line = account_line(&accounts[i]);
        r.push(line);
        proof {
            assert(r.deep_view() =~= prev.push(account_line_spec(accounts@[i as int])));
            assert(accounts@.subrange(0, (i + 1) as int) =~= accounts@.subrange(
                0,
                i as int,
            ).push(accounts@[i as int]));
            assert(r.deep_view() =~= accounts@.subrange(0, (i + 1) as int).map_values(
                |a: AccountRow| account_line_spec(a),
            ));
        }
        i = i + 1;
    }
    proof {
        assert(accounts@.subrange(0, accounts@.len() as int) =~= accounts@);
    }
    r
}

/// Builds one `MN` line per nickname row, in row order.
pub fn nick_table_lines(nicks: &Vec<NickRow>) -> (r: Vec<String>)
    ensures
        r.deep_view() == nicks@.map_values(|n: NickRow| nick_line_spec(n)),
{
    let mut r: Vec<String> = Vec::new();
    let mut i: usize = 0;
    while i < nicks.len()
        invariant
            i <= nicks.len(),
            r.deep_view() == nicks@.subrange(0, i as int).map_values(
                |n: NickRow| nick_line_spec(n),
            ),
        decreases nicks.len() - i,
    {
        let ghost prev = r.deep_view();
        let line = nick_line(&nicks[i]);
        r.push(line);
        proof {
            assert(r.deep_view() =~= prev.push(nick_line_spec(nicks@[i as int])));
            assert(nicks@.subrange(0, (i + 1) as int) =~= nicks@.subrange(0, i as int).push(
                nicks@[i as int],
            ));
            assert(r.deep_view() =~= nicks@.subrange(0, (i + 1) as int).map_values(
                |n: NickRow| nick_line_spec(n),
            ));
        }
        i = i + 1;
    }
    proof {
        assert(nicks@.subrange(0, nicks@.len() as int) =~= nicks@);
    }
    r
}

/// Builds the lines of every channel row, in row order.
pub fn channel_table_lines(channels: &Vec<ChannelRow>) -> (r: Vec<String>)
    ensures
        r.deep_view() == channels@.map_values(|c: ChannelRow| channel_lines_spec(c)).flatten(),
{
    let mut r: Vec<String> = Vec::new();
    let mut i: usize = 0;
    proof {
        assert(channels@.subrange(0, 0).map_values(
            |c: ChannelRow| channel_lines_spec(c),
        ).flatten() =~= Seq::<Seq<char>>::empty());
        assert(r.deep_view() =~= Seq::<Seq<char>>::empty());
    }
    while i < channels.len()
        invariant
            i <= channels.len(),
            r.deep_view() == channels@.subrange(0, i as int).map_values(
                |c: ChannelRow| channel_lines_spec(c),
            ).flatten(),
        decreases channels.len() - i,
    {
        let ghost prev = r.deep_view();
        let mut lines = channel_lines(&channels[i]);
        let ghost linesdv = lines.deep_view();
        r.append(&mut lines);
        proof {
            assert(r.deep_view() =~= prev + linesdv);
            assert(channels@.subrange(0, (i + 1) as int).map_values(
                |c: ChannelRow| channel_lines_spec(c),
            ) =~= channels@.subrange(0, i as int).map_values(
                |c: ChannelRow| channel_lines_spec(c),
            ).push(channel_lines_spec(channels@[i as int])));
            channels@.subrange(0, i as int).map_values(
                |c: ChannelRow| channel_lines_spec(c),
            ).lemma_flatten_push(channel_lines_spec(channels@[i as int]));
        }
        i = i + 1;
    }
    proof {
        assert(channels@.subrange(0, channels@.len() as int) =~= channels@);
    }
    r
}

/// Builds one `CA` line per membership row, in row order.
pub fn member_table_lines(members: &Vec<MemberRow>) -> (r: Vec<String>)
    ensures
        r.deep_view() == members@.map_values(|m: MemberRow| member_line_spec(m)),
{
    let mut r: Vec<String> = Vec::new();
    let mut i: usize = 0;
    while i < members.len()
        invariant
            i <= members.len(),
            r.deep_view() == members@.subrange(0, i as int).map_values(
                |m: MemberRow| member_line_spec(m),
            ),
        decreases members.len() - i,
    {
        let ghost prev = r.deep_view();
        let line = member_line(&members[i]);
        r.push(line);
        proof {
            assert(r.deep_view() =~= prev.push(member_line_spec(members@[i as int])));
            assert(members@.subrange(0, (i + 1) as int) =~= members@.subrange(0, i as int).push(
                members@[i as int],
            ));
            assert(r.deep_view() =~= members@.subrange(0, (i + 1) as int).map_values(
                |m: MemberRow| member_line_spec(m),
            ));
        }
        i = i + 1;
    }
    proof {
        assert(members@.subrange(0, members@.len() as int) =~= members@);
    }
    r
}

/// Builds the lines of every ban row, in row order.
pub fn ban_table_lines(bans: &Vec<BanRow>) -> (r: Vec<String>)
    ensures
        r.deep_view() == bans@.map_values(|b: BanRow| ban_lines_spec(b)).flatten(),
{
    let mut r: Vec<String> = Vec::new();
    let mut i: usize = 0;
    proof {
        assert(bans@.subrange(0, 0).map_values(|b: BanRow| ban_lines_spec(b)).flatten()
            =~= Seq::<Seq<char>>::empty());
        assert(r.deep_view() =~= Seq::<Seq<char>>::empty());
    }
    while i < bans.len()
        invariant
            i <= bans.len(),
            r.deep_view() == bans@.subrange(0, i as int).map_values(
                |b: BanRow| ban_lines_spec(b),
            ).flatten(),
        decreases bans.len() - i,
    {
        let ghost prev = r.deep_view();
        let mut lines = ban_lines(&bans[i]);
        let ghost linesdv = lines.deep_view();
        r.append(&mut lines);
        proof {
            assert(r.deep_view() =~= prev + linesdv);
            assert(bans@.subrange(0, (i + 1) as int).map_values(
                |b: BanRow| ban_lines_spec(b),
            ) =~= bans@.subrange(0, i as int).map_values(|b: BanRow| ban_lines_spec(b)).push(
                ban_lines_spec(bans@[i as int]),
            ));
            bans@.subrange(0, i as int).map_values(|b: BanRow| ban_lines_spec(b)).lemma_flatten_push(
                ban_lines_spec(bans@[i as int]),
            );
        }
        i = i + 1;
    }
    proof {
        assert(bans@.subrange(0, bans@.len() as int) =~= bans@);
    }
    r
}

/// The whole output: the two headers, then the lines of every table,
/// in the fixed table order of the output format.
pub open spec fn convert_spec(
    accounts: Seq<AccountRow>,
    nicks: Seq<NickRow>,
    channels: Seq<ChannelRow>,
    members: Seq<MemberRow>,
    bans: Seq<BanRow>,
) -> Seq<Seq<char>> {
    headers_spec() + accounts.map_values(|a: AccountRow| account_line_spec(a))
        + nicks.map_values(|n: NickRow| nick_line_spec(n)) + channels.map_values(
        |c: ChannelRow| channel_lines_spec(c),
    ).flatten() + members.map_values(|m: MemberRow| member_line_spec(m)) + bans.map_values(
        |b: BanRow| ban_lines_spec(b),
    ).flatten()
}

/// Converts a whole snapshot into the output lines, in order.
pub fn convert(
    accounts: &Vec<AccountRow>,
    nicks: &Vec<NickRow>,
    channels: &Vec<ChannelRow>,
    members: &Vec<MemberRow>,
    bans: &Vec<BanRow>,
) -> (r: Vec<String>)
    ensures
        r.deep_view() == convert_spec(accounts@, nicks@, channels@, members@, bans@),
{
    let mut r = header_lines();
    let ghost s0 = r.deep_view();
    let mut part = account_table_lines(accounts);
    let ghost p1 = part.deep_view();
    r.append(&mut part);
    proof {
        assert(r.deep_view() =~= s0 + p1);
    }
    let ghost s1 = r.deep_view();
    let mut part = nick_table_lines(nicks);
    let ghost p2 = part.deep_view();
    r.append(&mut part);
    proof {
        assert(r.deep_view() =~= s1 + p2);
    }
    let ghost s2 = r.deep_view();
    let mut part = channel_table_lines(channels);
    let ghost p3 = part.deep_view();
    r.append(&mut part);
    proof {
        assert(r.deep_view() =~= s2 + p3);
    }
    let ghost s3 = r.deep_view();
    let mut part = member_table_lines(members);
    let ghost p4 = part.deep_view();
    r.append(&mut part);
    proof {
        assert(r.deep_view() =~= s3 + p4);
    }
    let ghost s4 = r.deep_view();
    let mut part = ban_table_lines(bans);
    let ghost p5 = part.deep_view();
    r.append(&mut part);
    proof {
        assert(r.deep_view() =~= s4 + p5);
        assert(r.deep_view() =~= convert_spec(accounts@, nicks@, channels@, members@, bans@));
    }
    r
}

} // verus!
