//! The two plain-text files around a batch: the account list that comes in
//! and the bearer list that goes out.

use crate::text::{
    chars_of, find_char, join, lemma_position_slice, lemma_split_first, lemma_split_join,
    slice_of, split,
};
use vstd::prelude::*;
use vstd::string::StringExecFns;

verus! {

/// The credentials of one line of the account list.
#[derive(Clone, Debug, PartialEq, Eq)]
pub struct Account {
    pub email: String,
    pub password: String,
}

/// An `Account` as mathematical data.
pub struct AccountView {
    pub email: Seq<char>,
    pub password: Seq<char>,
}

impl View for Account {
    type V = AccountView;

    open spec fn view(&self) -> AccountView {
        AccountView { email: self.email@, password: self.password@ }
    }
}

/// The account list holds a line that is not `email:password`.
#[derive(Clone, Copy, Debug, PartialEq, Eq, Structural)]
pub struct BadLine {
    /// The index of the first such line, counted from 0.
    pub index: usize,
}

/// The account that a line stands for: the line has exactly one colon, the
/// email stands before it and the password behind it.
pub open spec fn account_of(line: Seq<char>) -> Option<AccountView> {
    let parts = split(line, ':');
    if parts.len() == 2 {
        Some(AccountView { email: parts[0], password: parts[1] })
    } else {
        None
    }
}

/// The texts of a list of strings.
pub open spec fn texts(list: Seq<String>) -> Seq<Seq<char>> {
    Seq::new(list.len(), |i: int| list[i]@)
}

/// The bearer file holds one token per line, in the order given: tokens
/// without a line feed, at least one of them, are the lines of the file's
/// contents.
pub proof fn lemma_one_bearer_per_line(bearers: Seq<Seq<char>>)
    requires
        bearers.len() >= 1,
        forall|p: int, i: int|
            0 <= p < bearers.len() && 0 <= i < bearers[p].len() ==> bearers[p][i] != '\n',
    ensures
        split(join(bearers, seq!['\n']), '\n') == bearers,
{
    lemma_split_join(bearers, '\n');
}

/// Reads one line of the account list.
pub fn parse_account(line: &str) -> (r: Option<Account>)
    ensures
        match r {
            Some(account) => account_of(line@) == Some(account@),
            None => account_of(line@) is None,
        },
{
    let chars = chars_of(line);
    let first = find_char(&chars, ':', 0);
    if first >= chars.len() {
        return None;
    }
    let second = find_char(&chars, ':', first + 1);
    proof {
        let rest = line@.subrange(first + 1, line@.len() as int);
        lemma_split_first(line@, ':', first as int);
        lemma_position_slice(line@, ':', first + 1, line@.len() as int);
        if second < chars.len() {
            lemma_split_first(rest, ':', second - (first + 1));
        } else {
            assert(split(rest, ':') =~= seq![rest]);
        }
    }
    if second < chars.len() {
        return None;
    }
    Some(Account { email: slice_of(line, 0, first), password: slice_of(line, first + 1, chars.len()) })
}

/// Reads the lines of the account list, in order. One line that is not
/// `email:password` fails the whole list.
pub fn read_acc_file(lines: &Vec<String>) -> (r: Result<Vec<Account>, BadLine>)
    ensures
        match r {
            Ok(accounts) => {
                &&& accounts.len() == lines.len()
                &&& forall|i: int|
                    0 <= i < lines.len() ==> account_of(#[trigger] lines[i]@) == Some(
                        accounts[i]@,
                    )
            },
            Err(bad) => {
                &&& bad.index < lines.len()
                &&& account_of(lines[bad.index as int]@) is None
                &&& forall|i: int| 0 <= i < bad.index ==> account_of(#[trigger] lines[i]@) is Some
            },
        },
{
    let mut accounts: Vec<Account> = Vec::new();
    let mut index: usize = 0;
    while index < lines.len()
        invariant
            index <= lines.len(),
            accounts.len() == index,
            forall|i: int|
                0 <= i < index ==> account_of(#[trigger] lines[i]@) == Some(accounts[i]@),
        decreases lines.len() - index,
    {
        match parse_account(lines[index].as_str()) {
            Some(account) => accounts.push(account),
            None => return Err(BadLine { index }),
        }
        index += 1;
    }
    Ok(accounts)
}

/// The contents of the bearer file: the tokens in order, one per line, with
/// a line feed between neighbours and none at the end.
pub fn write_bearer_file(bearers: &Vec<String>) -> (r: String)
    ensures
        r@ == join(texts(bearers@), seq!['\n']),
{
    let mut data = String::new();
    let mut index: usize = 0;
    proof {
        reveal_strlit("\n");
        assert("\n"@ =~= seq!['\n']);
        assert(texts(bearers@).take(0) =~= Seq::<Seq<char>>::empty());
    }
    while index < bearers.len()
        invariant
            index <= bearers.len(),
            "\n"@ == seq!['\n'],
            data@ == join(texts(bearers@).take(index as int), seq!['\n']),
        decreases bearers.len() - index,
    {
        proof {
            let before = texts(bearers@).take(index as int);
            let after = texts(bearers@).take(index + 1);
            assert(after.drop_last() =~= before);
            assert(after.last() == bearers@[index as int]@);
        }
        if index > 0 {
            data.append("\n");
        }
        data.append(bearers[index].as_str());
        index += 1;
    }
    proof {
        assert(texts(bearers@).take(bearers.len() as int) =~= texts(bearers@));
    }
    data
}

} // verus!
