use baldwin::GaError;
use baldwin::fitness::FitnessFunction;
use baldwin::turtle::Application;
use baldwin::turtle::AsPhenotype;
use baldwin::turtle::FitnessCalc;
use baldwin::turtle::Goal;
use baldwin::turtle::Instruction;
use baldwin::turtle::Turtle;

#[test]
fn instruction_bounds() {
    assert_eq!(Instruction::min_u8_value(), 0);
    assert_eq!(Instruction::max_u8_value(), 1);
}

#[test]
fn instruction_from_u8() {
    assert_eq!(Instruction::from_u8(0), Some(Instruction::Forward));
    assert_eq!(Instruction::from_u8(1), Some(Instruction::Stay));
    assert_eq!(Instruction::from_u8(2), None);
    assert_eq!(Instruction::from_u8(255), None);
}

#[test]
fn decoding_maps_each_gene() {
    let genome: Vec<u8> = vec![0, 1, 0, 0, 1];
    let program = genome.as_instructons();
    assert_eq!(
        program,
        vec![
            Instruction::Forward,
            Instruction::Stay,
            Instruction::Forward,
            Instruction::Forward,
            Instruction::Stay,
        ]
    );
}

#[test]
fn decoding_is_deterministic() {
    let genome: Vec<u8> = vec![0, 1, 1, 0, 1, 0, 0];
    let first = genome.as_instructons();
    let second = genome.as_instructons();
    assert_eq!(first, second);
}

#[test]
fn turtle_single_steps() {
    let start = Turtle { x: 3 };
    assert_eq!(start.apply_instruction(&Instruction::Forward).x, 4);
    assert_eq!(start.apply_instruction(&Instruction::Stay).x, 3);
}

#[test]
fn turtle_walks_forward_count() {
    let start = Turtle { x: 5 };
    let program = vec![
        Instruction::Forward,
        Instruction::Stay,
        Instruction::Forward,
        Instruction::Forward,
    ];
    let end = start.apply_instructions(&program);
    assert_eq!(end.x, 8);
}

#[test]
fn fitness_counts_forward_genes() {
    let calc = FitnessCalc { goal: Goal { target_length: 10 } };
    let all_forward: Vec<u8> = vec![0; 10];
    assert_eq!(calc.fitness_of(&all_forward), 10);
    let all_stay: Vec<u8> = vec![1; 10];
    assert_eq!(calc.fitness_of(&all_stay), 0);
    let mixed: Vec<u8> = vec![0, 1, 0, 1, 0, 1, 0, 1, 0, 1];
    assert_eq!(calc.fitness_of(&mixed), 5);
}

#[test]
fn fitness_is_capped_at_target() {
    let calc = FitnessCalc { goal: Goal { target_length: 3 } };
    let genome: Vec<u8> = vec![0, 0, 0, 0, 0];
    assert_eq!(calc.fitness_of(&genome), 3);
}

#[test]
fn fitness_bounds_are_declared() {
    let calc = FitnessCalc { goal: Goal { target_length: 7 } };
    assert_eq!(calc.highest_possible_fitness(), 7);
    assert_eq!(calc.lowest_possible_fitness(), 0);
}

#[test]
fn average_is_arithmetic_mean() {
    let calc = FitnessCalc { goal: Goal { target_length: 10 } };
    assert_eq!(calc.average(&vec![1, 2, 3]), Ok(2));
    assert_eq!(calc.average(&vec![7]), Ok(7));
    assert_eq!(calc.average(&vec![1, 2]), Ok(1));
}

#[test]
fn average_of_nothing_is_a_contract_violation() {
    let calc = FitnessCalc { goal: Goal { target_length: 10 } };
    assert_eq!(calc.average(&Vec::new()), Err(GaError::ContractViolation));
}
