use vstd::prelude::*;

verus! {

/// The characters of each of `strings`.
pub open spec fn texts(strings: Seq<String>) -> Seq<Seq<char>> {
    Seq::new(strings.len(), |i: int| strings[i]@)
}

/// The instruction that puts the machine into absolute positioning.
pub open spec fn absolute_marker() -> Seq<char> {
    "G90"@
}

/// The two lines that follow every absolute-positioning instruction: the
/// selection of the XY plane, then the feed-per-minute mode.
pub open spec fn setup_lines() -> Seq<char> {
    "G17\nG94\n"@
}

/// What one instruction contributes to the program text: its own line, and
/// after an absolute-positioning instruction the two setup lines.
pub open spec fn rendered_instruction(instruction: Seq<char>) -> Seq<char> {
    if instruction == absolute_marker() {
        instruction + "\n"@ + setup_lines()
    } else {
        instruction + "\n"@
    }
}

/// The text of a program: what its instructions contribute, in their order.
pub open spec fn rendered(program: Seq<Seq<char>>) -> Seq<char>
    decreases program.len(),
{
    if program.len() == 0 {
        Seq::empty()
    } else {
        rendered(program.drop_last()) + rendered_instruction(program.last())
    }
}

/// Renders a program as text: every instruction on a line of its own, in
/// the order given, each line ended by one newline, and the two setup lines
/// right after every absolute-positioning instruction. The empty program
/// gives the empty text.
pub fn render_program(program: &Vec<String>) -> (text: String)
    ensures
        text@ == rendered(texts(program@)),
        program@.len() == 0 ==> text@.len() == 0,
{
    let marker = String::from_str("G90");
    let mut text = String::new();
    let mut done: usize = 0;
    while done < program.len()
        invariant
            done <= program.len(),
            marker@ == absolute_marker(),
            text@ == rendered(texts(program@).take(done as int)),
        decreases program.len() - done,
    {
        let instruction = &program[done];
        text.append(instruction.as_str());
        text.append("\n");
        if *instruction == marker {
            text.append("G17\nG94\n");
        }
        proof {
            let before = texts(program@).take(done as int);
            let now = texts(program@).take(done + 1);
            assert(now.drop_last() =~= before);
            assert(now.last() == instruction@);
        }
        done += 1;
    }
    proof {
        assert(texts(program@).take(done as int) =~= texts(program@));
    }
    text
}

/// The text of two programs, one after the other, is the text of the first
/// followed by the text of the second.
pub proof fn rendered_in_order(first: Seq<Seq<char>>, then: Seq<Seq<char>>)
    ensures
        rendered(first + then) == rendered(first) + rendered(then),
    decreases then.len(),
{
    if then.len() == 0 {
        assert(first + then =~= first);
        assert(rendered(first) + Seq::<char>::empty() =~= rendered(first));
    } else {
        rendered_in_order(first, then.drop_last());
        assert((first + then).drop_last() =~= first + then.drop_last());
        assert((first + then).last() == then.last());
        assert(rendered(first) + (rendered(then.drop_last()) + rendered_instruction(then.last()))
            =~= (rendered(first) + rendered(then.drop_last())) + rendered_instruction(
            then.last(),
        ));
    }
}

/// The text of a program is the text of what comes before any one of its
/// instructions, then what that instruction contributes, then the text of
/// what comes after it.
pub proof fn rendered_around(program: Seq<Seq<char>>, at: int)
    requires
        0 <= at < program.len(),
    ensures
        rendered(program) == rendered(program.take(at)) + rendered_instruction(program[at])
            + rendered(program.skip(at + 1)),
{
    let one = seq![program[at]];
    assert(program =~= program.take(at) + one + program.skip(at + 1));
    rendered_in_order(program.take(at) + one, program.skip(at + 1));
    rendered_in_order(program.take(at), one);
    reveal_with_fuel(rendered, 2);
    assert(one.drop_last() =~= Seq::<Seq<char>>::empty());
    assert(rendered(one) =~= rendered_instruction(program[at]));
}

/// Wherever a program holds the absolute-positioning instruction, its text
/// holds that instruction's line and right after it the two setup lines, in
/// their order, between the text of what comes before the instruction and
/// the text of what comes after it.
pub proof fn marker_is_followed_by_setup(program: Seq<Seq<char>>, at: int)
    requires
        0 <= at < program.len(),
        program[at] == absolute_marker(),
    ensures
        rendered(program) == rendered(program.take(at)) + (absolute_marker() + "\n"@
            + setup_lines()) + rendered(program.skip(at + 1)),
{
    rendered_around(program, at);
}

/// An instruction other than the absolute-positioning one puts its own line
/// into the text and nothing more.
pub proof fn other_instructions_are_one_line(program: Seq<Seq<char>>, at: int)
    requires
        0 <= at < program.len(),
        program[at] != absolute_marker(),
    ensures
        rendered(program) == rendered(program.take(at)) + (program[at] + "\n"@) + rendered(
            program.skip(at + 1),
        ),
{
    rendered_around(program, at);
}

/// Whether a word leaves its line open for the words that follow: the word
/// of a rapid or a linear move does, and so does every X word, so that a
/// move and its coordinates share a line.
pub open spec fn stays_open(word: Seq<char>) -> bool {
    word == "G0"@ || word == "G1"@ || (word.len() > 0 && word[0] == 'X')
}

/// The lines made of a sequence of words so far: those that are closed, and
/// the text of the one still open.
pub struct Gathered {
    pub closed: Seq<Seq<char>>,
    pub open: Seq<char>,
}

/// Gathers words into lines from first to last: each word goes to the end
/// of the open line, and closes it unless it leaves it open.
pub open spec fn gathered(words: Seq<Seq<char>>) -> Gathered
    decreases words.len(),
{
    if words.len() == 0 {
        Gathered { closed: Seq::empty(), open: Seq::empty() }
    } else {
        let before = gathered(words.drop_last());
        let line = before.open + words.last();
        if stays_open(words.last()) {
            Gathered { closed: before.closed, open: line }
        } else {
            Gathered { closed: before.closed.push(line), open: Seq::empty() }
        }
    }
}

/// The instructions that a sequence of words spells: the lines gathered from
/// it, the last of which is closed by the end of the words.
pub open spec fn joined(words: Seq<Seq<char>>) -> Seq<Seq<char>> {
    let lines = gathered(words);
    if lines.open.len() == 0 {
        lines.closed
    } else {
        lines.closed.push(lines.open)
    }
}

/// Gathering loses no word and changes no order: the closed lines and the
/// open one, read one after the other, are the words read one after the
/// other.
pub proof fn gathering_keeps_every_word(words: Seq<Seq<char>>)
    ensures
        gathered(words).closed.flatten() + gathered(words).open == words.flatten(),
    decreases words.len(),
{
    let lines = gathered(words);
    lines.closed.lemma_flatten_and_flatten_alt_are_equivalent();
    words.lemma_flatten_and_flatten_alt_are_equivalent();
    if words.len() == 0 {
        assert(lines.closed.flatten_alt() + lines.open =~= words.flatten_alt());
    } else {
        let before = gathered(words.drop_last());
        gathering_keeps_every_word(words.drop_last());
        before.closed.lemma_flatten_and_flatten_alt_are_equivalent();
        words.drop_last().lemma_flatten_and_flatten_alt_are_equivalent();
        let line = before.open + words.last();
        if stays_open(words.last()) {
            assert(before.closed.flatten_alt() + (before.open + words.last()) =~= (
            before.closed.flatten_alt() + before.open) + words.last());
        } else {
            assert(before.closed.push(line).drop_last() =~= before.closed);
            assert(before.closed.push(line).last() == line);
            assert(before.closed.push(line).flatten_alt() + Seq::<char>::empty() =~= (
            before.closed.flatten_alt() + before.open) + words.last());
        }
    }
}

/// Joining loses no word and changes no order: the instructions read one
/// after the other are the words read one after the other.
pub proof fn joining_keeps_every_word(words: Seq<Seq<char>>)
    ensures
        joined(words).flatten() == words.flatten(),
{
    let lines = gathered(words);
    gathering_keeps_every_word(words);
    if lines.open.len() == 0 {
        assert(lines.closed.flatten() + lines.open =~= lines.closed.flatten());
    } else {
        lines.closed.lemma_flatten_push(lines.open);
    }
}

fn leaves_open(word: &String, rapid: &String, linear: &String) -> (open: bool)
    requires
        rapid@ == "G0"@,
        linear@ == "G1"@,
    ensures
        open == stays_open(word@),
{
    if *word == *rapid || *word == *linear {
        true
    } else if word.as_str().is_empty() {
        false
    } else {
        word.as_str().get_char(0) == 'X'
    }
}

/// Joins the words of a compiled program into its instructions, one string
/// for each line: a move and the coordinates that follow it become one
/// instruction, every other word is an instruction by itself.
pub fn join_words(words: &Vec<String>) -> (program: Vec<String>)
    ensures
        texts(program@) == joined(texts(words@)),
{
    let rapid = String::from_str("G0");
    let linear = String::from_str("G1");
    let mut program: Vec<String> = Vec::new();
    let mut open = String::new();
    let mut done: usize = 0;
    while done < words.len()
        invariant
            done <= words.len(),
            rapid@ == "G0"@,
            linear@ == "G1"@,
            texts(program@) == gathered(texts(words@).take(done as int)).closed,
            open@ == gathered(texts(words@).take(done as int)).open,
        decreases words.len() - done,
    {
        let word = &words[done];
        open.append(word.as_str());
        proof {
            let before = texts(words@).take(done as int);
            let now = texts(words@).take(done + 1);
            assert(now.drop_last() =~= before);
            assert(now.last() == word@);
        }
        if !leaves_open(word, &rapid, &linear) {
            let ghost closed = texts(program@);
            let ghost line = open@;
            program.push(open);
            open = String::new();
            assert(texts(program@) =~= closed.push(line));
        }
        done += 1;
    }
    proof {
        assert(texts(words@).take(done as int) =~= texts(words@));
    }
    if !open.as_str().is_empty() {
        let ghost closed = texts(program@);
        let ghost line = open@;
        program.push(open);
        assert(texts(program@) =~= closed.push(line));
    }
    program
}

} // verus!
