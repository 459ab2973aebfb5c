//! Random identities: avatar URLs and anonymous users.

use vstd::prelude::*;

verus! {

use vstd::string::StringExecFns;
use crate::entities::User;
use crate::ident::{fresh_id, uuid_to_string};
use crate::rng::{rand_below, rand_ratio};
use crate::values::DisplayName;

/// The decimal digit characters.
pub open spec fn dec_digit(d: int) -> char {
    if d == 0 {
        '0'
    } else if d == 1 {
        '1'
    } else if d == 2 {
        '2'
    } else if d == 3 {
        '3'
    } else if d == 4 {
        '4'
    } else if d == 5 {
        '5'
    } else if d == 6 {
        '6'
    } else if d == 7 {
        '7'
    } else if d == 8 {
        '8'
    } else {
        '9'
    }
}

/// The decimal rendering of a number: digits only, no sign, no
/// separators.
pub open spec fn dec_str_of(n: nat) -> Seq<char>
    decreases n,
{
    if n < 10 {
        seq![dec_digit(n as int)]
    } else {
        dec_str_of(n / 10).push(dec_digit((n % 10) as int))
    }
}

fn digit_str(d: u64) -> (r: &'static str)
    requires
        d < 10,
    ensures
        r@ == seq![dec_digit(d as int)],
{
    proof {
        reveal_strlit("0");
        reveal_strlit("1");
        reveal_strlit("2");
        reveal_strlit("3");
        reveal_strlit("4");
        reveal_strlit("5");
        reveal_strlit("6");
        reveal_strlit("7");
        reveal_strlit("8");
        reveal_strlit("9");
    }
    let r = match d {
        0 => "0",
        1 => "1",
        2 => "2",
        3 => "3",
        4 => "4",
        5 => "5",
        6 => "6",
        7 => "7",
        8 => "8",
        _ => "9",
    };
    proof {
        assert(r@ =~= seq![dec_digit(d as int)]);
    }
    r
}

/// Renders a number in decimal: digits only, no sign, no separators.
pub(crate) fn u64_to_string(n: u64) -> (r: String)
    ensures
        r@ == dec_str_of(n as nat),
    decreases n,
{
    if n < 10 {
        digit_str(n).to_owned()
    } else {
        let mut s = u64_to_string(n / 10);
        s.append(digit_str(n % 10));
        proof {
            assert(s@ =~= dec_str_of((n / 10) as nat).push(dec_digit((n % 10) as int)));
        }
        s
    }
}

/// Generates random avatar URLs for fresh identities.
pub struct PersonaGenerator;

fn pick_style(i: usize) -> (r: &'static str)
    requires
        i < 10,
{
    match i {
        0 => "avataaars",
        1 => "bottts",
        2 => "personas",
        3 => "lorelei",
        4 => "pixel-art",
        5 => "identicon",
        6 => "initials",
        7 => "thumbs",
        8 => "fun-emoji",
        _ => "adventurer",
    }
}

fn pick_color(i: usize) -> (r: &'static str)
    requires
        i < 15,
{
    match i {
        0 => "1e40af",
        1 => "7c3aed",
        2 => "db2777",
        3 => "dc2626",
        4 => "ea580c",
        5 => "d97706",
        6 => "65a30d",
        7 => "059669",
        8 => "0891b2",
        9 => "0284c7",
        10 => "4f46e5",
        11 => "7c2d12",
        12 => "be123c",
        13 => "9f1239",
        _ => "a21caf",
    }
}

impl PersonaGenerator {
    /// A random avatar URL: a random style, a fresh random seed, a random
    /// background color, and sometimes a flip or a rotation.
    pub fn generate_avatar() -> (r: String)
        ensures
            exists|style: Seq<char>, tail: Seq<char>|
                r@ == "https://api.dicebear.com/7.x/"@ + style + "/svg?seed="@ + tail,
    {
        let seed = uuid_to_string(fresh_id());
        let color = pick_color(rand_below(15));
        let style = pick_style(rand_below(10));
        let flip = if rand_ratio(3, 10) {
            "&flip=true"
        } else {
            ""
        };
        let rotate_pick = rand_below(4);
        let rotate = if rotate_pick == 1 {
            "&rotate=90"
        } else if rotate_pick == 2 {
            "&rotate=180"
        } else if rotate_pick == 3 {
            "&rotate=270"
        } else {
            ""
        };
        let mut url: String = "https://api.dicebear.com/7.x/".to_owned();
        url.append(style);
        url.append("/svg?seed=");
        url.append(seed.as_str());
        url.append("&backgroundColor=");
        url.append(color);
        url.append(flip);
        url.append(rotate);
        proof {
            let tail = seed@ + "&backgroundColor="@ + color@ + flip@ + rotate@;
            assert(url@ =~= "https://api.dicebear.com/7.x/"@ + style@ + "/svg?seed="@ + tail);
        }
        url
    }
}

/// Generates anonymous users with a random name and avatar.
pub struct RandomUserService;

fn pick_name(i: usize) -> (r: &'static str)
    requires
        i < 7,
{
    match i {
        0 => "Anonymous",
        1 => "Wanderer",
        2 => "Ghost",
        3 => "Shadow",
        4 => "Echo",
        5 => "Phantom",
        _ => "Whisper",
    }
}

impl RandomUserService {
    /// A fresh anonymous user: a random name from a fixed list and a
    /// random avatar, without credentials.
    pub fn generate_random_user() -> (r: User)
        ensures
            r.password_hash is None,
            r.refresh_token is None,
            exists|tail: Seq<char>|
                r.avatar_url@ == "https://api.dicebear.com/7.x/avataaars/svg?seed="@ + tail,
    {
        let name = pick_name(rand_below(7));
        let seed_num = rand_below(100) + 1;
        let seed = u64_to_string(seed_num as u64);
        let mut avatar: String = "https://api.dicebear.com/7.x/avataaars/svg?seed=".to_owned();
        avatar.append(seed.as_str());
        proof {
            assert(avatar@ =~= "https://api.dicebear.com/7.x/avataaars/svg?seed="@ + seed@);
        }
        User::new(DisplayName::new(name.to_owned()), avatar)
    }
}

} // verus!
