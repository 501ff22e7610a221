use vstd::prelude::*;
use crate::frame::{Color565, DrawOp, Font, is_text};
use crate::text::{chars_of, string_from_chars};

verus! {

/// Accounts shown per page.
pub const PAGE_SIZE: usize = 6;

/// Characters of a label that fit beside a code.
pub const LABEL_WIDTH: usize = 7;

/// One account: who issued it and its label.
#[derive(Debug)]
pub struct TotpAccount {
    pub issuer: String,
    pub label: String,
}

/// Whether " - " starts at position `k` of `s`.
pub open spec fn sep_at(s: Seq<char>, k: int) -> bool {
    0 <= k && k + 3 <= s.len() && s[k] == ' ' && s[k + 1] == '-' && s[k + 2] == ' '
}

/// The first position at or after `k` where " - " starts.
pub open spec fn first_sep(s: Seq<char>, k: int) -> Option<int>
    decreases s.len() - k,
{
    if k < 0 || k + 3 > s.len() {
        None
    } else if sep_at(s, k) {
        Some(k)
    } else {
        first_sep(s, k + 1)
    }
}

/// The name shown beside a code: the issuer, or else the label up to its first " - ",
/// cut to seven characters.
pub open spec fn account_name(issuer: Seq<char>, label: Seq<char>) -> Seq<char> {
    let full = if issuer.len() > 0 {
        issuer
    } else {
        match first_sep(label, 0) {
            Some(k) => label.take(k),
            None => label,
        }
    };
    if full.len() > LABEL_WIDTH { full.take(LABEL_WIDTH as int) } else { full }
}

/// The name shown beside a code (see `account_name`).
pub fn account_name_of(issuer: &String, label: &String) -> (r: String)
    ensures
        r@ == account_name(issuer@, label@),
{
    let full: Vec<char> = if !issuer.as_str().is_empty() {
        chars_of(issuer.as_str())
    } else {
        let l = chars_of(label.as_str());
        let mut k: usize = 0;
        let mut found = false;
        while l.len() >= 3 && k <= l.len() - 3 && !found
            invariant
                k <= l@.len(),
                first_sep(l@, 0) == first_sep(l@, k as int),
                found ==> sep_at(l@, k as int) && k + 3 <= l@.len(),
            decreases l@.len() - k + if found { 0int } else { 1int },
        {
            if l[k] == ' ' && l[k + 1] == '-' && l[k + 2] == ' ' {
                found = true;
            } else {
                k += 1;
            }
        }
        if found {
            let mut v: Vec<char> = Vec::new();
            let mut j: usize = 0;
            while j < k
                invariant
                    k <= l@.len(),
                    j <= k,
                    v@ == l@.take(j as int),
                decreases k - j,
            {
                v.push(l[j]);
                proof {
                    assert(l@.take(j + 1) =~= l@.take(j as int).push(l@[j as int]));
                }
                j += 1;
            }
            v
        } else {
            l
        }
    };
    let mut out: Vec<char> = Vec::new();
    let mut j: usize = 0;
    while j < full.len() && j < LABEL_WIDTH
        invariant
            j <= full@.len(),
            j <= LABEL_WIDTH,
            out@ == full@.take(j as int),
        decreases LABEL_WIDTH - j,
    {
        out.push(full[j]);
        proof {
            assert(full@.take(j + 1) =~= full@.take(j as int).push(full@[j as int]));
        }
        j += 1;
    }
    proof {
        if full@.len() <= LABEL_WIDTH {
            assert(full@.take(full@.len() as int) =~= full@);
        }
    }
    string_from_chars(&out)
}

} // verus!

verus! {

/// The page of `n` items that starts at item `start`: its first and one-past-last index.
pub open spec fn page_end(n: int, start: int) -> int {
    if start + PAGE_SIZE < n { start + PAGE_SIZE } else { n }
}

/// Whether `ops` paints the codes `codes` of the accounts `accounts` from row `start` on.
pub open spec fn is_code_page(ops: Seq<DrawOp>, accounts: Seq<TotpAccount>, codes: Seq<String>, start: int) -> bool {
    let white = Color565 { r: 31, g: 63, b: 31 };
    let n = page_end(codes.len() as int, start) - start;
    &&& ops.len() == 1 + 2 * n
    &&& ops[0] == DrawOp::Clear(Color565 { r: 0, g: 0, b: 0 })
    &&& forall|i: int|
        0 <= i < n ==> is_text(#[trigger] ops[1 + 2 * i], codes[start + i]@, 0, 16 + 21 * i, Font::Large, white)
            && is_text(
            ops[2 + 2 * i],
            account_name(accounts[start + i].issuer@, accounts[start + i].label@),
            60,
            16 + 21 * i,
            Font::Medium,
            white,
        )
}

pub open spec fn view_codes(v: Seq<String>) -> Seq<Seq<char>> {
    v.map_values(|s: String| s@)
}

/// The one-time codes of a list of accounts, six to a page; the current codes come from
/// outside with each frame, one per account.
#[derive(Debug)]
pub struct Totp {
    pub accounts: Vec<TotpAccount>,
    pub page: usize,
    pub codes: Vec<String>,
}

/// Whether `cached` holds exactly the codes `codes[start..end]`.
fn page_matches(cached: &Vec<String>, codes: &Vec<String>, start: usize, end: usize) -> (r: bool)
    requires
        start <= end <= codes@.len(),
    ensures
        r == (view_codes(codes@).subrange(start as int, end as int) == view_codes(cached@)),
{
    let ghost shown = view_codes(codes@).subrange(start as int, end as int);
    if cached.len() != end - start {
        assert(shown.len() != view_codes(cached@).len());
        return false;
    }
    let mut k: usize = 0;
    while k < end - start
        invariant
            start <= end <= codes@.len(),
            cached@.len() == end - start,
            shown == view_codes(codes@).subrange(start as int, end as int),
            0 <= k <= end - start,
            forall|j: int| 0 <= j < k ==> #[trigger] cached@[j]@ == codes@[start + j]@,
        decreases end - start - k,
    {
        if !(cached[k] == codes[start + k]) {
            assert(shown[k as int] != view_codes(cached@)[k as int]);
            return false;
        }
        k += 1;
    }
    assert(shown =~= view_codes(cached@));
    true
}

impl Totp {
    pub open spec fn wf(&self) -> bool {
        self.page * PAGE_SIZE <= self.accounts@.len() && self.accounts@.len() < 100000
    }

    pub fn new(accounts: Vec<TotpAccount>) -> (r: Self)
        requires
            accounts@.len() < 100000,
        ensures
            r.wf(),
            r.accounts == accounts,
            r.page == 0,
            r.codes@.len() == 0,
    {
        Totp { accounts, page: 0, codes: Vec::new() }
    }

    /// Moves to the next page, back to the first after the last.
    pub fn next_page(&mut self)
        requires
            old(self).wf(),
        ensures
            final(self).wf(),
            final(self).accounts == old(self).accounts,
            final(self).codes == old(self).codes,
            final(self).page == if old(self).accounts@.len() < (old(self).page + 1) * PAGE_SIZE {
                0
            } else {
                old(self).page + 1
            },
    {
        self.page = self.page + 1;
        if self.accounts.len() < self.page * PAGE_SIZE {
            self.page = 0;
        }
    }

    /// Paints the current page iff its codes differ from the ones painted last.
    pub fn draw(&mut self, codes: &Vec<String>, ops: &mut Vec<DrawOp>) -> (r: bool)
        requires
            old(self).wf(),
            codes@.len() == old(self).accounts@.len(),
        ensures
            final(self).wf(),
            final(self).accounts == old(self).accounts,
            final(self).page == old(self).page,
            ({
                let start = old(self).page * PAGE_SIZE;
                let shown = view_codes(codes@).subrange(start as int, page_end(codes@.len() as int, start as int));
                &&& r == (shown != view_codes(old(self).codes@))
                &&& view_codes(final(self).codes@) == shown
                &&& r ==> exists|added: Seq<DrawOp>|
                    final(ops)@ == old(ops)@ + added && is_code_page(added, old(self).accounts@, codes@, start as int)
                &&& !r ==> final(ops)@ == old(ops)@
            }),
    {
        let start = self.page * PAGE_SIZE;
        let end = if start + PAGE_SIZE < codes.len() { start + PAGE_SIZE } else { codes.len() };
        let ghost shown = view_codes(codes@).subrange(start as int, end as int);
        let same = page_matches(&self.codes, codes, start, end);
        if same {
            proof {
                assert(shown =~= view_codes(self.codes@));
            }
            return false;
        }
        let ghost before = ops@;
        let mut cache: Vec<String> = Vec::new();
        let white = Color565::white();
        ops.push(DrawOp::Clear(Color565::black()));
        let mut i: usize = 0;
        while i < end - start
            invariant
                self.wf(),
                start == self.page * PAGE_SIZE,
                start <= end <= codes@.len(),
                end == page_end(codes@.len() as int, start as int),
                codes@.len() == self.accounts@.len(),
                0 <= i <= end - start,
                view_codes(cache@) == shown.take(i as int),
                cache@.len() == i,
                shown.len() == end - start,
                shown == view_codes(codes@).subrange(start as int, end as int),
                ops@.len() == before.len() + 1 + 2 * i,
                ops@.subrange(0, before.len() as int) == before,
                ops@[before.len() as int] == DrawOp::Clear(Color565 { r: 0, g: 0, b: 0 }),
                forall|j: int|
                    0 <= j < i ==> is_text(#[trigger] ops@[before.len() + 1 + 2 * j], codes@[start + j]@, 0, 16 + 21 * j, Font::Large, white)
                        && is_text(
                        ops@[before.len() + 2 + 2 * j],
                        account_name(self.accounts@[start + j].issuer@, self.accounts@[start + j].label@),
                        60,
                        16 + 21 * j,
                        Font::Medium,
                        white,
                    ),
            decreases end - start - i,
        {
            let y: i32 = 16 + 21 * i as i32;
            let code = codes[start + i].clone();
            ops.push(DrawOp::Text { text: codes[start + i].clone(), x: 0, y, font: Font::Large, color: white });
            let acct = &self.accounts[start + i];
            ops.push(DrawOp::Text { text: account_name_of(&acct.issuer, &acct.label), x: 60, y, font: Font::Medium, color: white });
            cache.push(code);
            proof {
                assert(ops@.subrange(0, before.len() as int) =~= before);
                assert(shown[i as int] == codes@[start + i]@);
                assert(view_codes(cache@)[i as int] == cache@[i as int]@);
                assert(view_codes(cache@) =~= shown.take(i + 1));
            }
            i += 1;
        }
        self.codes = cache;
        proof {
            let added = ops@.subrange(before.len() as int, ops@.len() as int);
            assert(ops@ =~= before + added);
            assert forall|j: int| 0 <= j < end - start implies is_text(#[trigger] added[1 + 2 * j], codes@[start + j]@, 0, 16 + 21 * j, Font::Large, white)
                && is_text(
                added[2 + 2 * j],
                account_name(self.accounts@[start + j].issuer@, self.accounts@[start + j].label@),
                60,
                16 + 21 * j,
                Font::Medium,
                white,
            ) by {
                assert(added[1 + 2 * j] == ops@[before.len() + 1 + 2 * j]);
                assert(added[2 + 2 * j] == ops@[before.len() + 2 + 2 * j]);
            }
            assert(shown.take((end - start) as int) =~= shown);
            assert(added[0] == ops@[before.len() as int]);
            assert(is_code_page(added, self.accounts@, codes@, start as int));
        }
        true
    }
}

} // verus!
