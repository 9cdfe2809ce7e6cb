//! Program listings: plain, or with labels on branch and jump targets.
use crate::instr::{label, Instr};
use crate::text::push_dec;
use vstd::prelude::*;
use vstd::string::*;

verus! {

/// The in-program index that instruction `i` branches or jumps to, if any.
pub open spec fn target_of(prog: Seq<Instr>, i: int) -> Option<int> {
    match prog[i].spec_offset() {
        Some(off) => {
            let t = crate::instr::target_index(i, off);
            if 0 <= t < prog.len() {
                Some(t)
            } else {
                None
            }
        },
        None => None,
    }
}

/// Index `j` is the target of some instruction of the program.
pub open spec fn is_label(prog: Seq<Instr>, j: int) -> bool {
    exists|i: int| 0 <= i < prog.len() && #[trigger] target_of(prog, i) == Some(j)
}

/// Instruction `i`'s text: a label reference where its target is in the program.
pub open spec fn line_text(prog: Seq<Instr>, i: int) -> Seq<char> {
    if target_of(prog, i) is Some {
        prog[i].text_labelled(i)
    } else {
        prog[i].text()
    }
}

pub open spec fn label_decl(i: int) -> Seq<char> {
    label(i) + ":"@
}

/// The lines for instruction `i`: its label declaration if it has one, then
/// its indented text.
pub open spec fn block(prog: Seq<Instr>, i: int) -> Seq<Seq<char>> {
    (if is_label(prog, i) {
        seq![label_decl(i)]
    } else {
        Seq::empty()
    }) + seq!["  "@ + line_text(prog, i)]
}

/// The labelled listing of the first `k` instructions.
pub open spec fn labelled_lines(prog: Seq<Instr>, k: nat) -> Seq<Seq<char>>
    decreases k,
{
    if k == 0 {
        Seq::empty()
    } else {
        labelled_lines(prog, (k - 1) as nat) + block(prog, k - 1)
    }
}

pub open spec fn lines_view(v: Seq<String>) -> Seq<Seq<char>> {
    v.map_values(|s: String| s@)
}

/// How a program is listed.
#[derive(Clone, Copy, Debug, PartialEq, Eq, Structural)]
pub enum Mode {
    /// One line per instruction, offsets as numbers.
    Unlabelled,
    /// Label declarations before targets, offsets as label references.
    Labelled,
}

pub open spec fn listing(prog: Seq<Instr>, mode: Mode) -> Seq<Seq<char>> {
    match mode {
        Mode::Unlabelled => prog.map_values(|x: Instr| x.text()),
        Mode::Labelled => labelled_lines(prog, prog.len()),
    }
}

/// The index that instruction `i` reaches, when it is inside the program.
pub fn target(prog: &Vec<Instr>, i: usize) -> (r: Option<usize>)
    requires
        i < prog.len(),
        prog.len() <= i32::MAX,
    ensures
        r matches Some(t) ==> target_of(prog@, i as int) == Some(t as int),
        r is None ==> target_of(prog@, i as int) is None,
{
    match prog[i].offset() {
        Some(off) => {
            let q: i64 = if off >= 0 {
                off as i64 / 4
            } else {
                -((-(off as i64)) / 4)
            };
            let t: i64 = i as i64 + q;
            if 0 <= t && t < prog.len() as i64 {
                Some(t as usize)
            } else {
                None
            }
        },
        None => None,
    }
}

/// Marks each index that some instruction branches or jumps to.
pub fn label_targets(prog: &Vec<Instr>) -> (r: Vec<bool>)
    requires
        prog.len() <= i32::MAX,
    ensures
        r.len() == prog.len(),
        forall|j: int| 0 <= j < prog.len() ==> r[j] == is_label(prog@, j),
{
    let n = prog.len();
    let mut r: Vec<bool> = Vec::new();
    let mut k: usize = 0;
    while k < n
        invariant
            k <= n,
            n == prog.len(),
            r.len() == k,
            forall|j: int| 0 <= j < k ==> !r[j],
        decreases n - k,
    {
        r.push(false);
        k = k + 1;
    }
    let mut i: usize = 0;
    while i < n
        invariant
            i <= n,
            n == prog.len(),
            n <= i32::MAX,
            r.len() == n,
            forall|j: int|
                0 <= j < n ==> r[j] == exists|i2: int|
                    0 <= i2 < i && #[trigger] target_of(prog@, i2) == Some(j),
        decreases n - i,
    {
        let t = target(prog, i);
        let ghost old_r = r@;
        if let Some(t) = t {
            r.set(t, true);
        }
        proof {
            assert forall|j: int| 0 <= j < n implies r[j] == exists|i2: int|
                0 <= i2 < i + 1 && #[trigger] target_of(prog@, i2) == Some(j) by {
                if target_of(prog@, i as int) == Some(j) {
                    assert(0 <= i < i + 1 && target_of(prog@, i as int) == Some(j));
                } else {
                    assert(r[j] == old_r[j]);
                    if r[j] {
                        let i2 = choose|i2: int| 0 <= i2 < i && #[trigger] target_of(prog@, i2) == Some(j);
                        assert(0 <= i2 < i + 1 && target_of(prog@, i2) == Some(j));
                    }
                }
            }
        }
        i = i + 1;
    }
    r
}

/// The listing without labels: each instruction's text, in order.
pub fn render_unlabelled(prog: &Vec<Instr>) -> (r: Vec<String>)
    ensures
        lines_view(r@) == listing(prog@, Mode::Unlabelled),
{
    let mut r: Vec<String> = Vec::new();
    let mut i: usize = 0;
    while i < prog.len()
        invariant
            i <= prog.len(),
            lines_view(r@) == prog@.subrange(0, i as int).map_values(|x: Instr| x.text()),
        decreases prog.len() - i,
    {
        let line = prog[i].to_string();
        proof {
            assert(lines_view(r@.push(line)) =~= lines_view(r@).push(line@));
            assert(prog@.subrange(0, i + 1).map_values(|x: Instr| x.text()) =~= prog@.subrange(
                0,
                i as int,
            ).map_values(|x: Instr| x.text()).push(prog@[i as int].text()));
        }
        r.push(line);
        i = i + 1;
    }
    assert(prog@.subrange(0, prog.len() as int) =~= prog@);
    r
}

/// The listing with labels: before each target index its declaration
/// `L<index>:`, then every instruction indented by two spaces, with in-program
/// branch and jump offsets shown as the label they reach.
pub fn render_labelled(prog: &Vec<Instr>) -> (r: Vec<String>)
    requires
        prog.len() <= i32::MAX,
    ensures
        lines_view(r@) == listing(prog@, Mode::Labelled),
{
    let labels = label_targets(prog);
    let mut r: Vec<String> = Vec::new();
    let mut i: usize = 0;
    while i < prog.len()
        invariant
            i <= prog.len() <= i32::MAX,
            labels.len() == prog.len(),
            forall|j: int| 0 <= j < prog.len() ==> labels[j] == is_label(prog@, j),
            lines_view(r@) == labelled_lines(prog@, i as nat),
        decreases prog.len() - i,
    {
        let ghost before = r@;
        if labels[i] {
            let mut l = String::new();
            l.append("L");
            push_dec(&mut l, i as i64);
            l.append(":");
            assert(l@ =~= label_decl(i as int));
            r.push(l);
        }
        let text = match target(prog, i) {
            Some(_) => prog[i].to_string_labelled(i as i32),
            None => prog[i].to_string(),
        };
        let mut s = String::new();
        s.append("  ");
        s.append(text.as_str());
        r.push(s);
        proof {
            assert(lines_view(r@) =~= lines_view(before) + block(prog@, i as int));
        }
        i = i + 1;
    }
    r
}

/// Lists a decoded program in the given mode.
pub fn render(prog: &Vec<Instr>, mode: Mode) -> (r: Vec<String>)
    requires
        prog.len() <= i32::MAX,
    ensures
        lines_view(r@) == listing(prog@, mode),
{
    match mode {
        Mode::Unlabelled => render_unlabelled(prog),
        Mode::Labelled => render_labelled(prog),
    }
}

} // verus!
