//! The multi-page scan completeness check: probe row ids, the page query
//! for an engine, how a returned row value is reduced to a bare id, when
//! paging stops, and the final verdict.

use vstd::prelude::*;
use vstd::string::*;

use crate::text::{
    chars_of, contains_str, decimal, decimal_string, has_infix, has_prefix, is_white_space, occurs_at,
    is_white_space_char, owned, trim, trim_back, trim_front, zero_padded, zero_padded_decimal,
};

verus! {

/// Number of probe rows the scan seeds and must find.
pub const ITER_PROBE_ROWS: usize = 1001;

/// Page size of the scan.
pub const ITER_PAGE_SIZE: usize = 1000;

/// Id of probe row `i`: `r` and `i` zero-padded to four digits.
pub fn iter_probe_id(i: usize) -> (s: String)
    ensures
        s@ == "r"@ + zero_padded(decimal(i as nat), 4),
{
    let mut s = owned("r");
    let digits = zero_padded_decimal(i as u64, 4);
    s.append(digits.as_str());
    s
}

/// Page query of the scan on engine `engine_id` at `offset`: SQL engines
/// select `id`, others `VALUE id`; Surreal pages with `START`, others with
/// `OFFSET`.
pub open spec fn spec_iter_page_query(engine_id: Seq<char>, offset: nat) -> Seq<char> {
    let select = if has_infix(engine_id, "postgres"@) || has_infix(engine_id, "sqlite"@)
        || has_infix(engine_id, "hybrid"@) {
        "SELECT id FROM catalog_iter_probe ORDER BY id ASC "@
    } else {
        "SELECT VALUE id FROM catalog_iter_probe ORDER BY id ASC "@
    };
    let window = if has_infix(engine_id, "surreal"@) {
        "LIMIT 1000 START "@
    } else {
        "LIMIT 1000 OFFSET "@
    };
    select + window + decimal(offset)
}

/// Page query of the scan on engine `engine_id` at `offset`.
pub fn iter_page_query(engine_id: &str, offset: usize) -> (q: String)
    ensures
        q@ == spec_iter_page_query(engine_id@, offset as nat),
{
    let sql = contains_str(engine_id, "postgres") || contains_str(engine_id, "sqlite")
        || contains_str(engine_id, "hybrid");
    let mut q = if sql {
        owned("SELECT id FROM catalog_iter_probe ORDER BY id ASC ")
    } else {
        owned("SELECT VALUE id FROM catalog_iter_probe ORDER BY id ASC ")
    };
    if contains_str(engine_id, "surreal") {
        q.append("LIMIT 1000 START ");
    } else {
        q.append("LIMIT 1000 OFFSET ");
    }
    let n = decimal_string(offset as u64);
    q.append(n.as_str());
    q
}

/// The part of `s` after its last `:` (all of `s` when it has none).
pub open spec fn after_last_colon(s: Seq<char>) -> Seq<char>
    decreases s.len(),
{
    if s.len() == 0 {
        s
    } else if s.last() == ':' {
        Seq::empty()
    } else {
        after_last_colon(s.drop_last()).push(s.last())
    }
}

/// `s` with its leading `"` removed.
pub open spec fn strip_quotes_front(s: Seq<char>) -> Seq<char>
    decreases s.len(),
{
    if s.len() > 0 && s[0] == '"' {
        strip_quotes_front(s.drop_first())
    } else {
        s
    }
}

/// `s` with its trailing `"` removed.
pub open spec fn strip_quotes_back(s: Seq<char>) -> Seq<char>
    decreases s.len(),
{
    if s.len() > 0 && s.last() == '"' {
        strip_quotes_back(s.drop_last())
    } else {
        s
    }
}

/// Bare record id of a returned row value: after the last `:`, trimmed,
/// without surrounding `"`.
pub open spec fn bare_id(s: Seq<char>) -> Seq<char> {
    strip_quotes_back(strip_quotes_front(trim(after_last_colon(s))))
}

proof fn lemma_after_last_colon_step(s: Seq<char>, k: int)
    requires
        0 < k <= s.len(),
        s[k - 1] != ':',
    ensures
        after_last_colon(s.subrange(0, k)) == after_last_colon(s.subrange(0, k - 1)).push(s[k - 1]),
{
    assert(s.subrange(0, k).drop_last() =~= s.subrange(0, k - 1));
}

proof fn lemma_front_step(s: Seq<char>, i: int, j: int)
    requires
        0 <= i < j <= s.len(),
    ensures
        is_white_space(s[i]) ==> trim_front(s.subrange(i, j)) == trim_front(s.subrange(i + 1, j)),
        s[i] == '"' ==> strip_quotes_front(s.subrange(i, j)) == strip_quotes_front(
            s.subrange(i + 1, j),
        ),
{
    assert(s.subrange(i, j).drop_first() =~= s.subrange(i + 1, j));
}

proof fn lemma_back_step(s: Seq<char>, i: int, j: int)
    requires
        0 <= i < j <= s.len(),
    ensures
        is_white_space(s[j - 1]) ==> trim_back(s.subrange(i, j)) == trim_back(s.subrange(i, j - 1)),
        s[j - 1] == '"' ==> strip_quotes_back(s.subrange(i, j)) == strip_quotes_back(
            s.subrange(i, j - 1),
        ),
{
    assert(s.subrange(i, j).drop_last() =~= s.subrange(i, j - 1));
}

/// Bare record id of a returned row value (see [`bare_id`]).
pub fn bare_record_id(raw: &str) -> (r: String)
    ensures
        r@ == bare_id(raw@),
{
    let cs = chars_of(raw);
    let n = cs.len();
    let mut k: usize = n;
    assert(cs@.subrange(0, n as int) =~= cs@);
    assert(cs@.subrange(n as int, n as int) =~= Seq::<char>::empty());
    while k > 0 && cs[k - 1] != ':'
        invariant
            n == cs@.len(),
            cs@ == raw@,
            k <= n,
            after_last_colon(cs@) == after_last_colon(cs@.subrange(0, k as int)) + cs@.subrange(
                k as int,
                n as int,
            ),
        decreases k,
    {
        proof {
            lemma_after_last_colon_step(cs@, k as int);
            assert(cs@.subrange(k - 1, n as int) =~= seq![cs@[k - 1]] + cs@.subrange(
                k as int,
                n as int,
            ));
            assert(after_last_colon(cs@.subrange(0, k - 1)).push(cs@[k - 1]) + cs@.subrange(
                k as int,
                n as int,
            ) =~= after_last_colon(cs@.subrange(0, k - 1)) + cs@.subrange(k - 1, n as int));
        }
        k = k - 1;
    }
    proof {
        if k == 0 {
            assert(cs@.subrange(0, 0) =~= Seq::<char>::empty());
        } else {
            assert(cs@.subrange(0, k as int).last() == ':');
        }
        assert(after_last_colon(cs@) =~= cs@.subrange(k as int, n as int));
    }
    let mut lo: usize = k;
    while lo < n && is_white_space_char(cs[lo])
        invariant
            n == cs@.len(),
            k <= lo <= n,
            trim_front(cs@.subrange(k as int, n as int)) == trim_front(
                cs@.subrange(lo as int, n as int),
            ),
        decreases n - lo,
    {
        proof {
            lemma_front_step(cs@, lo as int, n as int);
        }
        lo = lo + 1;
    }
    assert(trim_front(cs@.subrange(k as int, n as int)) == cs@.subrange(lo as int, n as int));
    let mut hi: usize = n;
    while hi > lo && is_white_space_char(cs[hi - 1])
        invariant
            n == cs@.len(),
            lo <= hi <= n,
            trim_back(cs@.subrange(lo as int, n as int)) == trim_back(
                cs@.subrange(lo as int, hi as int),
            ),
        decreases hi,
    {
        proof {
            lemma_back_step(cs@, lo as int, hi as int);
        }
        hi = hi - 1;
    }
    assert(trim(after_last_colon(raw@)) == cs@.subrange(lo as int, hi as int));
    let mut a: usize = lo;
    while a < hi && cs[a] == '"'
        invariant
            n == cs@.len(),
            lo <= a <= hi <= n,
            strip_quotes_front(cs@.subrange(lo as int, hi as int)) == strip_quotes_front(
                cs@.subrange(a as int, hi as int),
            ),
        decreases hi - a,
    {
        proof {
            lemma_front_step(cs@, a as int, hi as int);
        }
        a = a + 1;
    }
    assert(strip_quotes_front(cs@.subrange(lo as int, hi as int)) == cs@.subrange(
        a as int,
        hi as int,
    ));
    let mut b: usize = hi;
    while b > a && cs[b - 1] == '"'
        invariant
            n == cs@.len(),
            a <= b <= hi,
            hi <= n,
            strip_quotes_back(cs@.subrange(a as int, hi as int)) == strip_quotes_back(
                cs@.subrange(a as int, b as int),
            ),
        decreases b,
    {
        proof {
            lemma_back_step(cs@, a as int, b as int);
        }
        b = b - 1;
    }
    assert(bare_id(raw@) == cs@.subrange(a as int, b as int));
    owned(raw.substring_char(a, b))
}

/// The views of a list of strings.
pub open spec fn views(v: Seq<String>) -> Seq<Seq<char>> {
    v.map_values(|s: String| s@)
}

/// Number of distinct strings in `ids`.
pub fn distinct_count(ids: &Vec<String>) -> (n: usize)
    ensures
        n == views(ids@).to_set().len(),
{
    let mut uniq: Vec<String> = Vec::new();
    let m = ids.len();
    let mut i: usize = 0;
    while i < m
        invariant
            m == ids@.len(),
            i <= m,
            views(uniq@).no_duplicates(),
            views(uniq@).to_set() == views(ids@.take(i as int)).to_set(),
            uniq@.len() <= i,
        decreases m - i,
    {
        let id = &ids[i];
        let mut found = false;
        let mut j: usize = 0;
        while j < uniq.len()
            invariant
                j <= uniq@.len(),
                found == exists|t: int| 0 <= t < j && uniq@[t]@ == id@,
            decreases uniq@.len() - j,
        {
            if uniq[j] == *id {
                found = true;
            }
            j = j + 1;
        }
        let ghost before = uniq@;
        proof {
            assert(ids@.take(i + 1) =~= ids@.take(i as int).push(*id));
            assert(views(ids@.take(i + 1)) =~= views(ids@.take(i as int)).push(id@));
            views(ids@.take(i as int)).lemma_push_to_set_commute(id@);
        }
        if !found {
            uniq.push(id.clone());
            proof {
                assert(views(uniq@) =~= views(before).push(id@));
                views(before).lemma_push_to_set_commute(id@);
                assert forall|x: int, y: int|
                    0 <= x < views(uniq@).len() && 0 <= y < views(uniq@).len() && x != y implies views(
                    uniq@,
                )[x] != views(uniq@)[y] by {
                    if x == before.len() as int {
                        assert(views(uniq@)[y] == before[y]@);
                    } else if y == before.len() as int {
                        assert(views(uniq@)[x] == before[x]@);
                    }
                }
            }
        } else {
            proof {
                let t = choose|t: int| 0 <= t < j && uniq@[t]@ == id@;
                assert(views(uniq@)[t] == id@);
                assert(views(uniq@).to_set().contains(id@));
                assert(views(ids@.take(i as int)).to_set().insert(id@) =~= views(
                    ids@.take(i as int),
                ).to_set());
            }
        }
        i = i + 1;
    }
    proof {
        assert(ids@.take(m as int) =~= ids@);
        views(uniq@).unique_seq_to_set();
    }
    uniq.len()
}

/// Progress of a paged scan: the bare ids seen so far and the next offset.
pub struct IterScan {
    seen: Vec<String>,
    offset: usize,
}

/// The abstract state of a scan.
pub ghost struct IterScanState {
    pub seen: Seq<Seq<char>>,
    pub offset: nat,
}

impl View for IterScan {
    type V = IterScanState;

    closed spec fn view(&self) -> IterScanState {
        IterScanState { seen: views(self.seen@), offset: self.offset as nat }
    }
}

/// The bare ids a page contributes: each row's bare id, empty ones dropped.
pub open spec fn page_ids(rows: Seq<Seq<char>>) -> Seq<Seq<char>>
    decreases rows.len(),
{
    if rows.len() == 0 {
        Seq::empty()
    } else {
        let b = bare_id(rows.last());
        if b.len() == 0 {
            page_ids(rows.drop_last())
        } else {
            page_ids(rows.drop_last()).push(b)
        }
    }
}

impl IterScan {
    /// A scan that has seen nothing, at offset 0.
    pub fn new() -> (s: Self)
        ensures
            s@.seen == Seq::<Seq<char>>::empty(),
            s@.offset == 0,
    {
        let s = IterScan { seen: Vec::new(), offset: 0 };
        assert(s@.seen =~= Seq::<Seq<char>>::empty());
        s
    }

    /// Offset of the next page.
    pub fn offset(&self) -> (o: usize)
        ensures
            o == self@.offset,
    {
        self.offset
    }

    /// The next page query on engine `engine_id`.
    pub fn page_query(&self, engine_id: &str) -> (q: String)
        ensures
            q@ == spec_iter_page_query(engine_id@, self@.offset),
    {
        iter_page_query(engine_id, self.offset)
    }

    /// Take in one page of row values. `Ok(true)`: fetch the next page;
    /// `Ok(false)`: the scan is complete (an empty or short page); `Err`:
    /// paging ran past every probe row without ending.
    pub fn absorb(&mut self, rows: &Vec<String>) -> (r: Result<bool, String>)
        ensures
            rows@.len() == 0 ==> final(self)@ == old(self)@ && r == Ok::<bool, String>(false),
            rows@.len() > 0 ==> final(self)@.seen == old(self)@.seen + page_ids(views(rows@)),
            rows@.len() > 0 && rows@.len() < ITER_PAGE_SIZE ==> final(self)@.offset == old(
                self,
            )@.offset && r == Ok::<bool, String>(false),
            rows@.len() >= ITER_PAGE_SIZE ==> ({
                let next: int = if old(self)@.offset + ITER_PAGE_SIZE > usize::MAX {
                    usize::MAX as int
                } else {
                    old(self)@.offset + ITER_PAGE_SIZE
                };
                &&& final(self)@.offset == next
                &&& next > ITER_PROBE_ROWS + ITER_PAGE_SIZE ==> (r matches Err(m) && m@
                    == "iter-scan-complete did not terminate"@)
                &&& next <= ITER_PROBE_ROWS + ITER_PAGE_SIZE ==> r == Ok::<bool, String>(true)
            }),
    {
        let n = rows.len();
        if n == 0 {
            return Ok(false);
        }
        let ghost start = views(self.seen@);
        let mut k: usize = 0;
        while k < n
            invariant
                n == rows@.len(),
                k <= n,
                views(self.seen@) == start + page_ids(views(rows@.take(k as int))),
                self.offset == old(self).offset,
            decreases n - k,
        {
            let bare = bare_record_id(rows[k].as_str());
            let ghost before = self.seen@;
            proof {
                assert(views(rows@.take(k + 1)) =~= views(rows@.take(k as int)).push(rows@[k as int]@));
                assert(views(rows@.take(k + 1)).drop_last() =~= views(rows@.take(k as int)));
            }
            if bare.as_str().unicode_len() > 0 {
                self.seen.push(bare);
                assert(views(self.seen@) =~= views(before).push(bare@));
            }
            k = k + 1;
        }
        assert(rows@.take(n as int) =~= rows@);
        if n < ITER_PAGE_SIZE {
            return Ok(false);
        }
        self.offset = self.offset.saturating_add(ITER_PAGE_SIZE);
        if self.offset > ITER_PROBE_ROWS + ITER_PAGE_SIZE {
            return Err(owned("iter-scan-complete did not terminate"));
        }
        Ok(true)
    }

    /// Verdict of a finished scan: every probe row found exactly once by id.
    pub fn verdict(&self) -> (r: Result<(), String>)
        ensures
            r is Ok <==> self@.seen.to_set().len() == ITER_PROBE_ROWS,
            r matches Err(m) ==> m@ == "iter-scan-complete expected 1001 unique ids, got "@
                + decimal(self@.seen.to_set().len()) + " (raw "@ + decimal(self@.seen.len())
                + ")"@,
    {
        let unique = distinct_count(&self.seen);
        if unique == ITER_PROBE_ROWS {
            return Ok(());
        }
        let mut m = owned("iter-scan-complete expected 1001 unique ids, got ");
        let u = decimal_string(unique as u64);
        m.append(u.as_str());
        m.append(" (raw ");
        let raw = decimal_string(self.seen.len() as u64);
        m.append(raw.as_str());
        m.append(")");
        Err(m)
    }
}

/// The page query speaks the engine's dialect: SQL engines (ids naming
/// postgres, sqlite or hybrid) select plain `id`, every other engine selects
/// `VALUE id`; Surreal engines page with `START`, every other with `OFFSET`;
/// and the query ends with the offset in decimal.
pub proof fn lemma_page_query_dialect(engine_id: Seq<char>, offset: nat)
    ensures
        ({
            let q = spec_iter_page_query(engine_id, offset);
            let sql = has_infix(engine_id, "postgres"@) || has_infix(engine_id, "sqlite"@)
                || has_infix(engine_id, "hybrid"@);
            &&& sql ==> has_prefix(q, "SELECT id FROM "@)
            &&& !sql ==> has_prefix(q, "SELECT VALUE id FROM "@)
            &&& has_infix(engine_id, "surreal"@) ==> has_infix(q, "LIMIT 1000 START "@)
            &&& !has_infix(engine_id, "surreal"@) ==> has_infix(q, "LIMIT 1000 OFFSET "@)
            &&& q.len() >= decimal(offset).len()
            &&& q.subrange(q.len() - decimal(offset).len(), q.len() as int) == decimal(offset)
        }),
{
    reveal_strlit("SELECT id FROM ");
    reveal_strlit("SELECT VALUE id FROM ");
    reveal_strlit("SELECT id FROM catalog_iter_probe ORDER BY id ASC ");
    reveal_strlit("SELECT VALUE id FROM catalog_iter_probe ORDER BY id ASC ");
    reveal_strlit("LIMIT 1000 START ");
    reveal_strlit("LIMIT 1000 OFFSET ");
    let q = spec_iter_page_query(engine_id, offset);
    let sql = has_infix(engine_id, "postgres"@) || has_infix(engine_id, "sqlite"@) || has_infix(
        engine_id,
        "hybrid"@,
    );
    let select = if sql {
        "SELECT id FROM catalog_iter_probe ORDER BY id ASC "@
    } else {
        "SELECT VALUE id FROM catalog_iter_probe ORDER BY id ASC "@
    };
    let window = if has_infix(engine_id, "surreal"@) {
        "LIMIT 1000 START "@
    } else {
        "LIMIT 1000 OFFSET "@
    };
    assert(q == select + window + decimal(offset));
    if sql {
        assert(q.subrange(0, 15) =~= "SELECT id FROM "@);
    } else {
        assert(q.subrange(0, 21) =~= "SELECT VALUE id FROM "@);
    }
    assert(q.subrange(select.len() as int, select.len() + window.len() as int) =~= window);
    assert(occurs_at(q, window, select.len() as int));
    assert(q.subrange(q.len() - decimal(offset).len(), q.len() as int) =~= decimal(offset));
}

} // verus!
