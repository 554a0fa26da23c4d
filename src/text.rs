use vstd::prelude::*;
use vstd::string::*;

verus! {

/// The character of one decimal digit.
pub open spec fn digit_char(d: nat) -> char {
    if d == 0 {
        '0'
    } else if d == 1 {
        '1'
    } else if d == 2 {
        '2'
    } else if d == 3 {
        '3'
    } else if d == 4 {
        '4'
    } else if d == 5 {
        '5'
    } else if d == 6 {
        '6'
    } else if d == 7 {
        '7'
    } else if d == 8 {
        '8'
    } else {
        '9'
    }
}

/// The decimal notation of `n`, without leading zeros.
pub open spec fn decimal(n: nat) -> Seq<char>
    decreases n,
{
    if n < 10 {
        seq![digit_char(n)]
    } else {
        decimal(n / 10).push(digit_char(n % 10))
    }
}

/// The name a connection is given when it is admitted.
pub open spec fn default_name(id: nat) -> Seq<char> {
    "User #"@ + decimal(id)
}

/// The author of every notice the server writes itself.
pub open spec fn system_author() -> Seq<char> {
    "system"@
}

/// Body of the notice that announces an arrival.
pub open spec fn join_text(name: Seq<char>) -> Seq<char> {
    name + " entered in this chat room"@
}

/// Body of the notice that announces a departure.
pub open spec fn leave_text(name: Seq<char>) -> Seq<char> {
    name + " left this chat room"@
}

/// Body of the notice that announces a change of display name.
pub open spec fn rename_text(old_name: Seq<char>, new_name: Seq<char>) -> Seq<char> {
    old_name + " changed username to "@ + new_name
}

fn digit_str(d: usize) -> (r: &'static str)
    requires
        d < 10,
    ensures
        r@ == seq![digit_char(d as nat)],
{
    if d == 0 {
        proof { reveal_strlit("0"); }
        "0"
    } else if d == 1 {
        proof { reveal_strlit("1"); }
        "1"
    } else if d == 2 {
        proof { reveal_strlit("2"); }
        "2"
    } else if d == 3 {
        proof { reveal_strlit("3"); }
        "3"
    } else if d == 4 {
        proof { reveal_strlit("4"); }
        "4"
    } else if d == 5 {
        proof { reveal_strlit("5"); }
        "5"
    } else if d == 6 {
        proof { reveal_strlit("6"); }
        "6"
    } else if d == 7 {
        proof { reveal_strlit("7"); }
        "7"
    } else if d == 8 {
        proof { reveal_strlit("8"); }
        "8"
    } else {
        proof { reveal_strlit("9"); }
        "9"
    }
}

/// Writes `n` in decimal.
pub fn decimal_string(n: usize) -> (r: String)
    ensures
        r@ == decimal(n as nat),
    decreases n,
{
    if n < 10 {
        let mut s = String::new();
        s.append(digit_str(n));
        s
    } else {
        let mut s = decimal_string(n / 10);
        s.append(digit_str(n % 10));
        s
    }
}

/// The display name given to connection `id` on admission: `User #<id>`.
pub fn default_username(id: usize) -> (r: String)
    ensures
        r@ == default_name(id as nat),
{
    let mut s = String::new();
    s.append("User #");
    let digits = decimal_string(id);
    s.append(digits.as_str());
    s
}

/// The author name of server notices.
pub fn system_name() -> (r: String)
    ensures
        r@ == system_author(),
{
    let mut s = String::new();
    s.append("system");
    s
}

/// `<name> entered in this chat room`.
pub fn join_notice_text(name: &String) -> (r: String)
    ensures
        r@ == join_text(name@),
{
    let mut s = name.clone();
    s.append(" entered in this chat room");
    s
}

/// `<name> left this chat room`.
pub fn leave_notice_text(name: &String) -> (r: String)
    ensures
        r@ == leave_text(name@),
{
    let mut s = name.clone();
    s.append(" left this chat room");
    s
}

/// `<old> changed username to <new>`.
pub fn rename_notice_text(old_name: &String, new_name: &String) -> (r: String)
    ensures
        r@ == rename_text(old_name@, new_name@),
{
    let mut s = old_name.clone();
    s.append(" changed username to ");
    s.append(new_name.as_str());
    s
}

} // verus!
