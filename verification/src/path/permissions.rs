//! POSIX permission bits, decoded and rendered.

use crate::style::{
    closed, coloured, green, lemma_coloured_shows_text, lemma_escape_sequence_shows_nothing,
    lemma_plain_text_shows, lemma_rgb_open_is_escape_sequence, lemma_style_sequences,
    lemma_visible_concat, muted, red, rgb_open, visible, yellow,
};
use vstd::prelude::*;
use vstd::string::*;

verus! {

/// The mode bits of an entry and the user who owns it.
#[derive(Debug, Clone, Copy)]
pub struct UnixPerms {
    pub perms: u32,
    pub owner_uid: u32,
}

/// The three permission bits of one class of users: read is 4, write is 2, execute is 1.
#[derive(Debug)]
pub struct UserPerms(pub u8);

/// The character that stands for a permission that is not granted.
pub const PLACEHOLDER: char = '-';

/// The bits of the owning user: bits 6 to 8 of the mode.
pub open spec fn user_bits(perms: u32) -> u8 {
    ((perms >> 6) & 0o7) as u8
}

/// The bits of the owning group: bits 3 to 5 of the mode.
pub open spec fn group_bits(perms: u32) -> u8 {
    ((perms >> 3) & 0o7) as u8
}

/// The bits of everyone else: bits 0 to 2 of the mode.
pub open spec fn other_bits(perms: u32) -> u8 {
    (perms & 0o7) as u8
}

impl UserPerms {
    /// Whether the read bit is set.
    pub open spec fn can_read(&self) -> bool {
        self.0 & 0o4 != 0
    }

    /// Whether the write bit is set.
    pub open spec fn can_write(&self) -> bool {
        self.0 & 0o2 != 0
    }

    /// Whether the execute bit is set.
    pub open spec fn can_execute(&self) -> bool {
        self.0 & 0o1 != 0
    }

    /// The three characters of the triple: `r`, `w` and `x` for the bits
    /// that are set, in that order, the placeholder for those that are not.
    pub open spec fn plain_text(&self) -> Seq<char> {
        seq![
            if self.can_read() { 'r' } else { PLACEHOLDER },
            if self.can_write() { 'w' } else { PLACEHOLDER },
            if self.can_execute() { 'x' } else { PLACEHOLDER },
        ]
    }

    /// The three characters of the triple, each in its colour: `r` yellow,
    /// `w` red, `x` green, a placeholder muted grey.
    pub open spec fn coloured_text(&self) -> Seq<char> {
        (if self.can_read() {
            coloured("\x1b[33m"@, seq!['r'])
        } else {
            coloured(rgb_open(128, 128, 128), seq![PLACEHOLDER])
        }) + (if self.can_write() {
            coloured("\x1b[31m"@, seq!['w'])
        } else {
            coloured(rgb_open(128, 128, 128), seq![PLACEHOLDER])
        }) + (if self.can_execute() {
            coloured("\x1b[32m"@, seq!['x'])
        } else {
            coloured(rgb_open(128, 128, 128), seq![PLACEHOLDER])
        })
    }

    /// Whether the triple grants the right to read.
    pub fn read(&self) -> (set: bool)
        ensures
            set == self.can_read(),
    {
        (self.0 & 0o4) != 0
    }

    /// Whether the triple grants the right to write.
    pub fn write(&self) -> (set: bool)
        ensures
            set == self.can_write(),
    {
        (self.0 & 0o2) != 0
    }

    /// Whether the triple grants the right to execute.
    pub fn execute(&self) -> (set: bool)
        ensures
            set == self.can_execute(),
    {
        (self.0 & 0o1) != 0
    }

    /// The three permissions, in the order read, write, execute.
    pub fn all(&self) -> (set: (bool, bool, bool))
        ensures
            set == (self.can_read(), self.can_write(), self.can_execute()),
    {
        (self.read(), self.write(), self.execute())
    }

    /// The triple as three characters, such as `r-x`.
    pub fn print(&self) -> (out: String)
        ensures
            out@ == self.plain_text(),
            out@.len() == 3,
    {
        proof {
            reveal_strlit("r");
            reveal_strlit("w");
            reveal_strlit("x");
            reveal_strlit("-");
        }
        let mut out = String::new();
        out.append(if self.read() { "r" } else { "-" });
        out.append(if self.write() { "w" } else { "-" });
        out.append(if self.execute() { "x" } else { "-" });
        assert(out@ =~= self.plain_text());
        out
    }

    /// The triple as three characters, each wrapped in the escape sequences of its colour.
    pub fn print_color(&self) -> (out: String)
        ensures
            out@ == self.coloured_text(),
            visible(out@) == self.plain_text(),
    {
        proof {
            reveal_strlit("r");
            reveal_strlit("w");
            reveal_strlit("x");
            reveal_strlit("-");
            lemma_triple_shows_three_characters(*self);
        }
        let mut out = if self.read() { yellow("r") } else { muted("-") };
        let write = if self.write() { red("w") } else { muted("-") };
        let execute = if self.execute() { green("x") } else { muted("-") };
        out.append(write.as_str());
        out.append(execute.as_str());
        out
    }
}

impl UnixPerms {
    /// The nine characters of the three triples: owner, group, others.
    pub open spec fn plain_text(&self) -> Seq<char> {
        UserPerms(user_bits(self.perms)).plain_text() + UserPerms(
            group_bits(self.perms),
        ).plain_text() + UserPerms(other_bits(self.perms)).plain_text()
    }

    /// The three triples in colour, the owner's in bold.
    pub open spec fn coloured_text(&self) -> Seq<char> {
        "\x1b[1m"@ + UserPerms(user_bits(self.perms)).coloured_text() + "\x1b[0m"@ + UserPerms(
            group_bits(self.perms),
        ).coloured_text() + UserPerms(other_bits(self.perms)).coloured_text()
    }

    /// The permissions as nine characters, such as `rwxr-xr--`. Who asks makes no difference.
    pub fn print(&self, current_uid: u32) -> (out: String)
        ensures
            out@ == self.plain_text(),
            out@.len() == 9,
    {
        let (user, group, other) = self.all();
        let mut out = user.print();
        out.append(group.print().as_str());
        out.append(other.print().as_str());
        out
    }

    /// The permissions in colour, the owner's triple in bold. Who asks makes no difference.
    pub fn print_color(&self, current_uid: u32) -> (out: String)
        ensures
            out@ == self.coloured_text(),
            visible(out@) == self.plain_text(),
    {
        proof {
            lemma_permissions_show_nine_characters(*self);
        }
        let (user, group, other) = self.all();
        let mut out = String::new();
        out.append("\x1b[1m");
        out.append(user.print_color().as_str());
        out.append("\x1b[0m");
        out.append(group.print_color().as_str());
        out.append(other.print_color().as_str());
        assert(out@ =~= self.coloured_text());
        out
    }

    /// The permissions of the owning user.
    pub fn user(&self) -> (triple: UserPerms)
        ensures
            triple.0 == user_bits(self.perms),
    {
        let perms = self.perms;
        assert(((perms & 0o700) >> 6) == (perms >> 6) & 0o7) by (bit_vector);
        assert((perms >> 6) & 0o7 < 8) by (bit_vector);
        UserPerms(((perms & 0o700) >> 6) as u8)
    }

    /// The permissions of the owning group.
    pub fn group(&self) -> (triple: UserPerms)
        ensures
            triple.0 == group_bits(self.perms),
    {
        let perms = self.perms;
        assert(((perms & 0o70) >> 3) == (perms >> 3) & 0o7) by (bit_vector);
        assert((perms >> 3) & 0o7 < 8) by (bit_vector);
        UserPerms(((perms & 0o70) >> 3) as u8)
    }

    /// The permissions of everyone else.
    pub fn other(&self) -> (triple: UserPerms)
        ensures
            triple.0 == other_bits(self.perms),
    {
        let perms = self.perms;
        assert(perms & 0o7 < 8) by (bit_vector);
        UserPerms((perms & 0o7) as u8)
    }

    /// The permissions of the three classes, in the order user, group, other.
    pub fn all(&self) -> (triples: (UserPerms, UserPerms, UserPerms))
        ensures
            triples.0.0 == user_bits(self.perms),
            triples.1.0 == group_bits(self.perms),
            triples.2.0 == other_bits(self.perms),
    {
        (self.user(), self.group(), self.other())
    }
}

/// The bits of a triple that grants what the three flags say.
pub open spec fn triple_bits(read: bool, write: bool, execute: bool) -> u8 {
    (if read { 0o4u8 } else { 0u8 }) | (if write { 0o2u8 } else { 0u8 }) | (if execute {
        0o1u8
    } else {
        0u8
    })
}

/// The mode whose low nine bits are the three triples, and whose other bits are clear.
pub open spec fn mode_of(user: u8, group: u8, other: u8) -> u32 {
    ((user as u32) << 6) | ((group as u32) << 3) | (other as u32)
}

/// Decoding loses nothing of the low nine bits: the permissions that the
/// three decoded triples grant, encoded again, are those nine bits of the mode.
pub proof fn lemma_decode_keeps_low_nine_bits(perms: u32)
    ensures
        ({
            let user = UserPerms(user_bits(perms));
            let group = UserPerms(group_bits(perms));
            let other = UserPerms(other_bits(perms));
            mode_of(
                triple_bits(user.can_read(), user.can_write(), user.can_execute()),
                triple_bits(group.can_read(), group.can_write(), group.can_execute()),
                triple_bits(other.can_read(), other.can_write(), other.can_execute()),
            ) == perms & 0o777
        }),
{
    let u = user_bits(perms);
    let g = group_bits(perms);
    let o = other_bits(perms);
    lemma_triple_bits_of_flags(u);
    lemma_triple_bits_of_flags(g);
    lemma_triple_bits_of_flags(o);
    assert(u < 8 && g < 8 && o < 8 && (((u as u32) << 6) | ((g as u32) << 3) | (o as u32)) == perms
        & 0o777) by (bit_vector)
        requires
            u == ((perms >> 6) & 0o7) as u8,
            g == ((perms >> 3) & 0o7) as u8,
            o == (perms & 0o7) as u8,
    ;
}

/// A triple below 8 is the encoding of the three flags read from it.
pub proof fn lemma_triple_bits_of_flags(bits: u8)
    ensures
        bits < 8 ==> triple_bits(bits & 0o4 != 0, bits & 0o2 != 0, bits & 0o1 != 0) == bits,
{
    assert(bits < 8 ==> ((if bits & 0o4 != 0 { 0o4u8 } else { 0u8 }) | (if bits & 0o2 != 0 {
        0o2u8
    } else {
        0u8
    }) | (if bits & 0o1 != 0 { 0o1u8 } else { 0u8 })) == bits) by (bit_vector);
}

/// Encoding three flags and reading them back gives the same three flags.
pub proof fn lemma_flags_of_triple_bits(read: bool, write: bool, execute: bool)
    ensures
        ({
            let triple = UserPerms(triple_bits(read, write, execute));
            &&& triple.0 < 8
            &&& triple.can_read() == read
            &&& triple.can_write() == write
            &&& triple.can_execute() == execute
        }),
{
    let bits = triple_bits(read, write, execute);
    assert(bits < 8 && (bits & 0o4 != 0) == read && (bits & 0o2 != 0) == write && (bits & 0o1 != 0)
        == execute) by (bit_vector)
        requires
            bits == (if read { 0o4u8 } else { 0u8 }) | (if write { 0o2u8 } else { 0u8 }) | (
            if execute { 0o1u8 } else { 0u8 }),
    ;
}

/// One flag of a triple in colour shows as its one character.
proof fn lemma_flag_shows(open: Seq<char>, flag: char)
    requires
        crate::style::escape_sequence(open),
        flag != '\x1b',
    ensures
        visible(coloured(open, seq![flag])) == seq![flag],
        closed(coloured(open, seq![flag])),
{
    lemma_plain_text_shows(seq![flag]);
    lemma_coloured_shows_text(open, seq![flag]);
}

/// A triple renders as exactly three characters, in colour or not: the
/// plain text has three, and the coloured text shows the plain one.
pub proof fn lemma_triple_shows_three_characters(triple: UserPerms)
    ensures
        triple.plain_text().len() == 3,
        visible(triple.coloured_text()) == triple.plain_text(),
        closed(triple.coloured_text()),
{
    lemma_style_sequences();
    lemma_rgb_open_is_escape_sequence(128, 128, 128);
    let grey = rgb_open(128, 128, 128);
    let read = if triple.can_read() {
        coloured("\x1b[33m"@, seq!['r'])
    } else {
        coloured(grey, seq![PLACEHOLDER])
    };
    let write = if triple.can_write() {
        coloured("\x1b[31m"@, seq!['w'])
    } else {
        coloured(grey, seq![PLACEHOLDER])
    };
    let execute = if triple.can_execute() {
        coloured("\x1b[32m"@, seq!['x'])
    } else {
        coloured(grey, seq![PLACEHOLDER])
    };
    lemma_flag_shows("\x1b[33m"@, 'r');
    lemma_flag_shows("\x1b[31m"@, 'w');
    lemma_flag_shows("\x1b[32m"@, 'x');
    lemma_flag_shows(grey, PLACEHOLDER);
    lemma_visible_concat(read, write, false);
    lemma_visible_concat(read + write, execute, false);
    assert(triple.coloured_text() == read + write + execute);
    assert(visible(read) + visible(write) + visible(execute) =~= triple.plain_text());
}

/// The permissions render as exactly nine characters, in colour or not.
pub proof fn lemma_permissions_show_nine_characters(perms: UnixPerms)
    ensures
        perms.plain_text().len() == 9,
        visible(perms.coloured_text()) == perms.plain_text(),
        closed(perms.coloured_text()),
{
    lemma_style_sequences();
    let user = UserPerms(user_bits(perms.perms));
    let group = UserPerms(group_bits(perms.perms));
    let other = UserPerms(other_bits(perms.perms));
    lemma_triple_shows_three_characters(user);
    lemma_triple_shows_three_characters(group);
    lemma_triple_shows_three_characters(other);
    let open = "\x1b[1m"@;
    let close = "\x1b[0m"@;
    lemma_escape_sequence_shows_nothing(open);
    lemma_escape_sequence_shows_nothing(close);
    lemma_visible_concat(open, user.coloured_text(), false);
    lemma_visible_concat(open + user.coloured_text(), close, false);
    lemma_visible_concat(open + user.coloured_text() + close, group.coloured_text(), false);
    lemma_visible_concat(
        open + user.coloured_text() + close + group.coloured_text(),
        other.coloured_text(),
        false,
    );
    assert(visible(perms.coloured_text()) =~= perms.plain_text());
}

} // verus!
