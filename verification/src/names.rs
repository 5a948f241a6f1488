use vstd::prelude::*;
use crate::decimal::{decimal, is_digit, lemma_decimal, lemma_digits_split, lemma_decimal_injective, push_decimal};

verus! {

// ---------------------------------------------------------------------------
// What the names and contents are
// ---------------------------------------------------------------------------

/// `p + decimal(a) + q + decimal(b) + r`: the shape of every name that carries
/// a task number and an iteration number.
pub open spec fn two_numbers(p: Seq<char>, a: nat, q: Seq<char>, b: nat, r: Seq<char>) -> Seq<char> {
    p + decimal(a) + q + decimal(b) + r
}

/// The path written and read by the basic read-back test under `dir`.
pub open spec fn spec_rw_path(dir: Seq<char>) -> Seq<char> {
    dir + "/rw"@
}

/// The directory of the independent-files task `id`.
pub open spec fn spec_task_base_path(id: nat) -> Seq<char> {
    "/stress/task_"@ + decimal(id)
}

/// The file that the independent-files task `id` uses in iteration `i`.
pub open spec fn spec_task_file_path(id: nat, i: nat) -> Seq<char> {
    two_numbers("/stress/task_"@, id, "/file_"@, i, ".txt"@)
}

/// What the independent-files task `id` writes in iteration `i`.
pub open spec fn spec_task_content(id: nat, i: nat) -> Seq<char> {
    two_numbers("content_task_"@, id, "_iter_"@, i, Seq::empty())
}

/// What the shared-file task `id` writes in iteration `i`.
pub open spec fn spec_shared_content(id: nat, i: nat) -> Seq<char> {
    two_numbers("shared_content_task_"@, id, "_iter_"@, i, Seq::empty())
}

/// The directory of the file-operations task `id`.
pub open spec fn spec_ops_base_path(id: nat) -> Seq<char> {
    "/stress/ops_task_"@ + decimal(id)
}

/// The directory that the file-operations task `id` creates in iteration `i`.
pub open spec fn spec_ops_dir_path(id: nat, i: nat) -> Seq<char> {
    two_numbers("/stress/ops_task_"@, id, "/dir_"@, i, Seq::empty())
}

/// The file that the file-operations task `id` creates in iteration `i`.
pub open spec fn spec_ops_file_path(id: nat, i: nat) -> Seq<char> {
    two_numbers("/stress/ops_task_"@, id, "/dir_"@, i, "/file.txt"@)
}

/// The number of padding characters in each write of the race task.
pub open spec fn race_padding_len() -> nat {
    10240
}

/// The padding that makes each write of the race task large: 10 KiB of `a`.
pub open spec fn spec_race_padding() -> Seq<char> {
    Seq::new(race_padding_len(), |k: int| 'a')
}

/// What the race task `id` writes in iteration `i`.
pub open spec fn spec_race_content(id: nat, i: nat) -> Seq<char> {
    two_numbers("race_content_"@, id, "_"@, i, "_"@ + spec_race_padding())
}

// ---------------------------------------------------------------------------
// Laws
// ---------------------------------------------------------------------------

/// Two names of the shape `p, a, q, b, r` are equal only when both numbers
/// are, provided that `q` and `r` do not begin with a digit.
pub proof fn lemma_two_numbers_injective(
    p: Seq<char>,
    q: Seq<char>,
    r: Seq<char>,
    a: nat,
    b: nat,
    c: nat,
    d: nat,
)
    requires
        q.len() >= 1,
        !is_digit(q[0]),
        r.len() == 0 || !is_digit(r[0]),
        two_numbers(p, a, q, b, r) == two_numbers(p, c, q, d, r),
    ensures
        a == c,
        b == d,
{
    lemma_decimal(a);
    lemma_decimal(b);
    lemma_decimal(c);
    lemma_decimal(d);
    let s1 = two_numbers(p, a, q, b, r);
    let s2 = two_numbers(p, c, q, d, r);
    let t1 = q + decimal(b) + r;
    let t2 = q + decimal(d) + r;
    assert(s1 =~= p + (decimal(a) + t1));
    assert(s2 =~= p + (decimal(c) + t2));
    assert(decimal(a) + t1 =~= s1.subrange(p.len() as int, s1.len() as int));
    assert(decimal(c) + t2 =~= s2.subrange(p.len() as int, s2.len() as int));
    assert(t1[0] == q[0]);
    assert(t2[0] == q[0]);
    lemma_digits_split(decimal(a), t1, decimal(c), t2);
    lemma_decimal_injective(a, c);
    let u1 = decimal(b) + r;
    let u2 = decimal(d) + r;
    assert(t1 =~= q + u1);
    assert(t2 =~= q + u2);
    assert(u1 =~= t1.subrange(q.len() as int, t1.len() as int));
    assert(u2 =~= t2.subrange(q.len() as int, t2.len() as int));
    lemma_digits_split(decimal(b), r, decimal(d), r);
    lemma_decimal_injective(b, d);
}

/// Each independent-files task, in each iteration, uses a file of its own:
/// equal paths come from the same task and the same iteration.
pub proof fn lemma_task_file_paths_distinct(id1: nat, i1: nat, id2: nat, i2: nat)
    requires
        spec_task_file_path(id1, i1) == spec_task_file_path(id2, i2),
    ensures
        id1 == id2,
        i1 == i2,
{
    reveal_strlit("/file_");
    reveal_strlit(".txt");
    lemma_two_numbers_injective("/stress/task_"@, "/file_"@, ".txt"@, id1, i1, id2, i2);
}

/// Each write of an independent-files task is told apart from every other:
/// equal contents come from the same task and the same iteration.
pub proof fn lemma_task_contents_distinct(id1: nat, i1: nat, id2: nat, i2: nat)
    requires
        spec_task_content(id1, i1) == spec_task_content(id2, i2),
    ensures
        id1 == id2,
        i1 == i2,
{
    reveal_strlit("_iter_");
    lemma_two_numbers_injective("content_task_"@, "_iter_"@, Seq::empty(), id1, i1, id2, i2);
}

/// Each file-operations task, in each iteration, creates a directory of its
/// own: equal directories come from the same task and the same iteration.
pub proof fn lemma_ops_dir_paths_distinct(id1: nat, i1: nat, id2: nat, i2: nat)
    requires
        spec_ops_dir_path(id1, i1) == spec_ops_dir_path(id2, i2),
    ensures
        id1 == id2,
        i1 == i2,
{
    reveal_strlit("/dir_");
    lemma_two_numbers_injective("/stress/ops_task_"@, "/dir_"@, Seq::empty(), id1, i1, id2, i2);
}

/// The file of a file-operations iteration lies directly inside the
/// directory that the same iteration creates.
pub proof fn lemma_ops_file_in_dir(id: nat, i: nat)
    ensures
        spec_ops_file_path(id, i) == spec_ops_dir_path(id, i) + "/file.txt"@,
{
    assert(spec_ops_file_path(id, i) =~= spec_ops_dir_path(id, i) + "/file.txt"@);
}

/// The file of an independent-files iteration lies inside the directory of
/// its task.
pub proof fn lemma_task_file_in_base(id: nat, i: nat)
    ensures
        spec_task_file_path(id, i) == spec_task_base_path(id) + ("/file_"@ + decimal(i) + ".txt"@),
{
    assert(spec_task_file_path(id, i) =~= spec_task_base_path(id) + ("/file_"@ + decimal(i) + ".txt"@));
}

/// Every name, spelled out: each is a fixed text with the decimal task
/// number first and the decimal iteration number second, as the original's
/// `format!` calls write them.
pub proof fn lemma_names_spelled_out(dir: Seq<char>, id: nat, i: nat)
    ensures
        spec_rw_path(dir) == dir + "/rw"@,
        spec_task_base_path(id) == "/stress/task_"@ + decimal(id),
        spec_task_file_path(id, i) == "/stress/task_"@ + decimal(id) + "/file_"@ + decimal(i) + ".txt"@,
        spec_task_content(id, i) == "content_task_"@ + decimal(id) + "_iter_"@ + decimal(i),
        spec_shared_content(id, i) == "shared_content_task_"@ + decimal(id) + "_iter_"@ + decimal(i),
        spec_ops_base_path(id) == "/stress/ops_task_"@ + decimal(id),
        spec_ops_dir_path(id, i) == "/stress/ops_task_"@ + decimal(id) + "/dir_"@ + decimal(i),
        spec_ops_file_path(id, i) == "/stress/ops_task_"@ + decimal(id) + "/dir_"@ + decimal(i)
            + "/file.txt"@,
        spec_race_content(id, i) == "race_content_"@ + decimal(id) + "_"@ + decimal(i) + "_"@
            + Seq::new(10240, |k: int| 'a'),
        spec_race_padding().len() == 10240,
        forall|k: int| 0 <= k < 10240 ==> #[trigger] spec_race_padding()[k] == 'a',
{
    assert(spec_task_content(id, i) =~= "content_task_"@ + decimal(id) + "_iter_"@ + decimal(i));
    assert(spec_shared_content(id, i) =~= "shared_content_task_"@ + decimal(id) + "_iter_"@ + decimal(i));
    assert(spec_ops_dir_path(id, i) =~= "/stress/ops_task_"@ + decimal(id) + "/dir_"@ + decimal(i));
    assert(spec_race_content(id, i) =~= "race_content_"@ + decimal(id) + "_"@ + decimal(i) + "_"@
        + Seq::new(10240, |k: int| 'a'));
}

/// Each shared write is told apart from every other: equal contents come
/// from the same task and the same iteration.
pub proof fn lemma_shared_contents_distinct(id1: nat, i1: nat, id2: nat, i2: nat)
    requires
        spec_shared_content(id1, i1) == spec_shared_content(id2, i2),
    ensures
        id1 == id2,
        i1 == i2,
{
    reveal_strlit("_iter_");
    lemma_two_numbers_injective("shared_content_task_"@, "_iter_"@, Seq::empty(), id1, i1, id2, i2);
}

/// Each race write is told apart from every other: equal contents come from
/// the same task and the same iteration.
pub proof fn lemma_race_contents_distinct(id1: nat, i1: nat, id2: nat, i2: nat)
    requires
        spec_race_content(id1, i1) == spec_race_content(id2, i2),
    ensures
        id1 == id2,
        i1 == i2,
{
    reveal_strlit("_");
    lemma_two_numbers_injective("race_content_"@, "_"@, "_"@ + spec_race_padding(), id1, i1, id2, i2);
}

/// Each file-operations iteration creates a file of its own.
pub proof fn lemma_ops_file_paths_distinct(id1: nat, i1: nat, id2: nat, i2: nat)
    requires
        spec_ops_file_path(id1, i1) == spec_ops_file_path(id2, i2),
    ensures
        id1 == id2,
        i1 == i2,
{
    reveal_strlit("/dir_");
    reveal_strlit("/file.txt");
    lemma_two_numbers_injective("/stress/ops_task_"@, "/dir_"@, "/file.txt"@, id1, i1, id2, i2);
}

/// Each task works in a directory of its own.
pub proof fn lemma_base_paths_distinct(id1: nat, id2: nat)
    ensures
        spec_task_base_path(id1) == spec_task_base_path(id2) ==> id1 == id2,
        spec_ops_base_path(id1) == spec_ops_base_path(id2) ==> id1 == id2,
{
    let p = "/stress/task_"@;
    let q = "/stress/ops_task_"@;
    if spec_task_base_path(id1) == spec_task_base_path(id2) {
        assert(decimal(id1) =~= spec_task_base_path(id1).subrange(p.len() as int, spec_task_base_path(id1).len() as int));
        assert(decimal(id2) =~= spec_task_base_path(id2).subrange(p.len() as int, spec_task_base_path(id2).len() as int));
        lemma_decimal_injective(id1, id2);
    }
    if spec_ops_base_path(id1) == spec_ops_base_path(id2) {
        assert(decimal(id1) =~= spec_ops_base_path(id1).subrange(q.len() as int, spec_ops_base_path(id1).len() as int));
        assert(decimal(id2) =~= spec_ops_base_path(id2).subrange(q.len() as int, spec_ops_base_path(id2).len() as int));
        lemma_decimal_injective(id1, id2);
    }
}

// ---------------------------------------------------------------------------
// Building them
// ---------------------------------------------------------------------------

/// The file that the start-up step writes and the basic tests read back.
pub fn hello_path() -> (r: &'static str)
    ensures
        r@ == "hello"@,
{
    "hello"
}

/// What the start-up step writes to `hello_path()`.
pub fn hello_contents() -> (r: &'static str)
    ensures
        r@ == "world d d d d"@,
{
    "world d d d d"
}

/// What the basic read-back test writes and expects to read.
pub fn something() -> (r: &'static str)
    ensures
        r@ == " s o m e t h i n g "@,
{
    " s o m e t h i n g "
}

/// The directory under which the stress tasks work.
pub fn stress_dir() -> (r: &'static str)
    ensures
        r@ == "/stress"@,
{
    "/stress"
}

/// The one file that all shared-file tasks write and read.
pub fn shared_file_path() -> (r: &'static str)
    ensures
        r@ == "/stress/shared_file.txt"@,
{
    "/stress/shared_file.txt"
}

/// How every correct read of the shared file begins.
pub fn shared_content_prefix() -> (r: &'static str)
    ensures
        r@ == "shared_content_task_"@,
{
    "shared_content_task_"
}

/// What every file-operations iteration writes.
pub fn ops_file_content() -> (r: &'static str)
    ensures
        r@ == "content"@,
{
    "content"
}

/// The one file that all race tasks write, read and remove at once.
pub fn race_file_path() -> (r: &'static str)
    ensures
        r@ == "/stress/race_file.txt"@,
{
    "/stress/race_file.txt"
}

/// `format!("{dir}/rw")`.
pub fn rw_path(dir: &str) -> (r: String)
    ensures
        r@ == spec_rw_path(dir@),
{
    let mut s = String::from_str(dir);
    s.append("/rw");
    s
}

/// `format!("/stress/task_{id}")`.
pub fn task_base_path(id: usize) -> (r: String)
    ensures
        r@ == spec_task_base_path(id as nat),
{
    let mut s = String::from_str("/stress/task_");
    push_decimal(&mut s, id);
    s
}

/// Appends `p`, the decimal `a`, `q` and the decimal `b` to a new string.
fn build_two_numbers(p: &str, a: usize, q: &str, b: usize) -> (r: String)
    ensures
        r@ == two_numbers(p@, a as nat, q@, b as nat, Seq::empty()),
{
    let mut s = String::from_str(p);
    push_decimal(&mut s, a);
    s.append(q);
    push_decimal(&mut s, b);
    assert(s@ =~= two_numbers(p@, a as nat, q@, b as nat, Seq::empty()));
    s
}

/// `format!("{}/file_{}.txt", task_base_path(id), i)`.
pub fn task_file_path(id: usize, i: usize) -> (r: String)
    ensures
        r@ == spec_task_file_path(id as nat, i as nat),
{
    let mut s = build_two_numbers("/stress/task_", id, "/file_", i);
    s.append(".txt");
    assert(s@ =~= spec_task_file_path(id as nat, i as nat));
    s
}

/// `format!("content_task_{}_iter_{}", id, i)`.
pub fn task_content(id: usize, i: usize) -> (r: String)
    ensures
        r@ == spec_task_content(id as nat, i as nat),
{
    build_two_numbers("content_task_", id, "_iter_", i)
}

/// `format!("shared_content_task_{}_iter_{}", id, i)`.
pub fn shared_content(id: usize, i: usize) -> (r: String)
    ensures
        r@ == spec_shared_content(id as nat, i as nat),
{
    build_two_numbers("shared_content_task_", id, "_iter_", i)
}

/// `format!("/stress/ops_task_{}", id)`.
pub fn ops_base_path(id: usize) -> (r: String)
    ensures
        r@ == spec_ops_base_path(id as nat),
{
    let mut s = String::from_str("/stress/ops_task_");
    push_decimal(&mut s, id);
    s
}

/// `format!("{}/dir_{}", ops_base_path(id), i)`.
pub fn ops_dir_path(id: usize, i: usize) -> (r: String)
    ensures
        r@ == spec_ops_dir_path(id as nat, i as nat),
{
    build_two_numbers("/stress/ops_task_", id, "/dir_", i)
}

/// `format!("{}/file.txt", ops_dir_path(id, i))`.
pub fn ops_file_path(id: usize, i: usize) -> (r: String)
    ensures
        r@ == spec_ops_file_path(id as nat, i as nat),
{
    let mut s = build_two_numbers("/stress/ops_task_", id, "/dir_", i);
    s.append("/file.txt");
    assert(s@ =~= spec_ops_file_path(id as nat, i as nat));
    s
}

/// `"a".repeat(1024 * 10)`.
pub fn race_padding() -> (r: String)
    ensures
        r@ == spec_race_padding(),
{
    let mut s = String::new();
    let mut k: usize = 0;
    proof { reveal_strlit("a"); }
    while k < 10240
        invariant
            k <= 10240,
            s@ =~= Seq::new(k as nat, |j: int| 'a'),
            "a"@ == seq!['a'],
        decreases 10240 - k,
    {
        s.append("a");
        k = k + 1;
    }
    s
}

/// `format!("race_content_{}_{}_{}", id, i, padding)`; the race task passes
/// `race_padding()`.
pub fn race_content(id: usize, i: usize, padding: &str) -> (r: String)
    ensures
        r@ == two_numbers("race_content_"@, id as nat, "_"@, i as nat, "_"@ + padding@),
        padding@ == spec_race_padding() ==> r@ == spec_race_content(id as nat, i as nat),
{
    let mut s = build_two_numbers("race_content_", id, "_", i);
    s.append("_");
    s.append(padding);
    assert(s@ =~= two_numbers("race_content_"@, id as nat, "_"@, i as nat, "_"@ + padding@));
    s
}

} // verus!
