//! The turtle-movement domain: the instruction alphabet, the genome
//! decoder, and a fitness evaluator that rewards walking far.
//!
//! This is the problem-specific plug-in that illustrates the decoding
//! contract: every gene of the declared domain maps to exactly one
//! instruction, decoding is a pure function of the genome, and out-of-domain
//! genes are a caller contract violation, ruled out by precondition.

use vstd::prelude::*;
use crate::GaError;
use crate::fitness::FitnessFunction;
use crate::util::mean_fitness;

verus! {

/// One step of a turtle program.
#[derive(Debug, Clone, Copy, PartialEq, Eq, Structural)]
pub enum Instruction {
    Forward,
    Stay,
}

/// The instruction a gene value encodes: `0` is `Forward`, every other
/// in-domain value (only `1`) is `Stay`.
pub open spec fn instruction_of(b: u8) -> Instruction {
    if b == 0 {
        Instruction::Forward
    } else {
        Instruction::Stay
    }
}

/// A whole genome, decoded gene by gene.
pub open spec fn instructions_of(s: Seq<u8>) -> Seq<Instruction> {
    Seq::new(s.len(), |i: int| instruction_of(s[i]))
}

/// Holds when every gene of `s` encodes an instruction.
pub open spec fn decodable(s: Seq<u8>) -> bool {
    forall|i: int| 0 <= i < s.len() ==> #[trigger] s[i] < 2
}

impl Instruction {
    /// The integer encoding of each instruction variant, in variant order.
    fn all_integer_values() -> (r: Vec<u8>)
        ensures
            r@ == seq![0u8, 1u8],
    {
        let mut v: Vec<u8> = Vec::new();
        v.push(0);
        v.push(1);
        proof {
            assert(v@ =~= seq![0u8, 1u8]);
        }
        v
    }

    /// The smallest integer that encodes an instruction.
    pub fn min_u8_value() -> (r: u8)
        ensures
            r == 0,
    {
        let all = Instruction::all_integer_values();
        let mut m: u8 = all[0];
        let mut i: usize = 1;
        while i < all.len()
            invariant
                all@ == seq![0u8, 1u8],
                1 <= i <= all@.len(),
                m == 0,
            decreases all@.len() - i,
        {
            if all[i] < m {
                m = all[i];
            }
            i = i + 1;
        }
        m
    }

    /// The largest integer that encodes an instruction.
    pub fn max_u8_value() -> (r: u8)
        ensures
            r == 1,
    {
        let all = Instruction::all_integer_values();
        let mut m: u8 = all[0];
        let mut i: usize = 1;
        while i < all.len()
            invariant
                all@ == seq![0u8, 1u8],
                1 <= i <= all@.len(),
                i == 1 ==> m == 0,
                i == 2 ==> m == 1,
            decreases all@.len() - i,
        {
            if all[i] > m {
                m = all[i];
            }
            i = i + 1;
        }
        m
    }

    /// Decodes one gene, `None` exactly on out-of-domain values.
    pub fn from_u8(b: u8) -> (r: Option<Instruction>)
        ensures
            r is Some <==> b < 2,
            b < 2 ==> r == Some(instruction_of(b)),
    {
        if b == 0 {
            Some(Instruction::Forward)
        } else if b == 1 {
            Some(Instruction::Stay)
        } else {
            None
        }
    }
}

/// Decoding from raw genomes to turtle programs.
pub trait AsPhenotype {
    /// The genome this decoder view reads.
    spec fn genes(&self) -> Seq<u8>;

    /// Decodes the genome into instructions, one per gene. Total over the
    /// gene domain; a pure function of the genome, so repeated calls on an
    /// unchanged genome return the identical program.
    fn as_instructons(&self) -> (r: Vec<Instruction>)
        requires
            decodable(self.genes()),
        ensures
            r@ == instructions_of(self.genes()),
    ;
}

impl AsPhenotype for Vec<u8> {
    open spec fn genes(&self) -> Seq<u8> {
        self@
    }

    fn as_instructons(&self) -> (r: Vec<Instruction>)
    {
        let mut out: Vec<Instruction> = Vec::new();
        let mut i: usize = 0;
        while i < self.len()
            invariant
                i <= self@.len(),
                decodable(self@),
                out@ =~= instructions_of(self@.take(i as int)),
            decreases self@.len() - i,
        {
            let ins = match Instruction::from_u8(self[i]) {
                Some(ins) => ins,
                None => {
                    // unreachable: every gene is decodable
                    proof {
                        assert(false);
                    }
                    Instruction::Stay
                },
            };
            out.push(ins);
            proof {
                assert(out@ =~= instructions_of(self@.take(i as int + 1)));
            }
            i = i + 1;
        }
        proof {
            assert(self@.take(self@.len() as int) =~= self@);
        }
        out
    }
}

/// Decoding is deterministic: the program depends on the genome alone, so
/// equal genomes decode to the identical instruction sequence.
pub proof fn lemma_decode_deterministic(g1: Seq<u8>, g2: Seq<u8>)
    requires
        g1 == g2,
    ensures
        instructions_of(g1) == instructions_of(g2),
{
}

/// A turtle on a line, at distance `x` from the origin.
#[derive(Debug, Clone, Copy, PartialEq, Eq, Structural)]
pub struct Turtle {
    pub x: usize,
}

/// How many instructions of `s` are `Forward`.
pub open spec fn forward_count(s: Seq<Instruction>) -> nat
    decreases s.len(),
{
    if s.len() == 0 {
        0
    } else {
        forward_count(s.drop_last()) + (if s.last() is Forward {
            1nat
        } else {
            0nat
        })
    }
}

/// No program moves the turtle further than its own length.
pub proof fn lemma_forward_count_le(s: Seq<Instruction>)
    ensures
        forward_count(s) <= s.len(),
    decreases s.len(),
{
    if s.len() > 0 {
        lemma_forward_count_le(s.drop_last());
    }
}

/// Running turtle programs.
pub trait Application: Sized {
    /// The current distance from the origin.
    spec fn pos(&self) -> nat;

    /// Runs one instruction: `Forward` advances by one, `Stay` does nothing.
    fn apply_instruction(&self, instruction: &Instruction) -> (r: Turtle)
        requires
            self.pos() + 1 <= usize::MAX,
        ensures
            r.x == self.pos() + (if instruction is Forward {
                1nat
            } else {
                0nat
            }),
    ;

    /// Runs a whole program: the turtle ends exactly one step further per
    /// `Forward` instruction.
    fn apply_instructions(&self, instructions: &Vec<Instruction>) -> (r: Turtle)
        requires
            self.pos() + instructions@.len() <= usize::MAX,
        ensures
            r.x == self.pos() + forward_count(instructions@),
    ;
}

impl Application for Turtle {
    open spec fn pos(&self) -> nat {
        self.x as nat
    }

    fn apply_instruction(&self, instruction: &Instruction) -> (r: Turtle)
    {
        match instruction {
            Instruction::Forward => Turtle { x: self.x + 1 },
            _ => *self,
        }
    }

    fn apply_instructions(&self, instructions: &Vec<Instruction>) -> (r: Turtle)
    {
        let mut t: Turtle = *self;
        let mut i: usize = 0;
        while i < instructions.len()
            invariant
                i <= instructions@.len(),
                self.x + instructions@.len() <= usize::MAX,
                t.x == self.x + forward_count(instructions@.take(i as int)),
            decreases instructions@.len() - i,
        {
            proof {
                lemma_forward_count_le(instructions@.take(i as int));
                assert(instructions@.take(i as int + 1).drop_last() =~= instructions@.take(
                    i as int,
                ));
            }
            t = t.apply_instruction(&instructions[i]);
            i = i + 1;
        }
        proof {
            assert(instructions@.take(instructions@.len() as int) =~= instructions@);
        }
        t
    }
}

/// The walking target: how far a perfect turtle travels.
#[derive(Debug, Clone, Copy)]
pub struct Goal {
    pub target_length: u64,
}

/// Scores a genome by how far its decoded program walks the turtle, capped
/// at the goal's target length.
#[derive(Debug, Clone, Copy)]
pub struct FitnessCalc {
    pub goal: Goal,
}

impl FitnessFunction for FitnessCalc {
    open spec fn valid_genome(&self, g: Seq<u8>) -> bool {
        decodable(g)
    }

    open spec fn fitness_spec(&self, g: Seq<u8>) -> u64 {
        if forward_count(instructions_of(g)) >= self.goal.target_length {
            self.goal.target_length
        } else {
            forward_count(instructions_of(g)) as u64
        }
    }

    open spec fn highest_possible_spec(&self) -> u64 {
        self.goal.target_length
    }

    open spec fn lowest_possible_spec(&self) -> u64 {
        0
    }

    fn fitness_of(&self, genome: &Vec<u8>) -> (r: u64)
    {
        let instructions = genome.as_instructons();
        let n = instructions.len();
        proof {
            assert(instructions@.len() == n <= usize::MAX);
        }
        let start = Turtle { x: 0 };
        let end = start.apply_instructions(&instructions);
        proof {
            lemma_forward_count_le(instructions@);
        }
        let length = end.x as u64;
        if self.goal.target_length <= length {
            self.goal.target_length
        } else {
            length
        }
    }

    fn highest_possible_fitness(&self) -> (r: u64)
    {
        self.goal.target_length
    }

    fn lowest_possible_fitness(&self) -> (r: u64)
    {
        0
    }

    fn average(&self, values: &Vec<u64>) -> (r: Result<u64, GaError>)
    {
        mean_fitness(values)
    }
}

} // verus!
