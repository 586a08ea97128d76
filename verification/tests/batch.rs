use banqi_engine::error::EvaluatorError;
use banqi_engine::inference::batch::{
    align_row, batch_dims, empty_output, encode_batch, output_from_flat_logits,
    output_from_row_logits, BatchDims, EncodedEnv, LeadEnv, WidthMismatch, NEG_INFINITY_BITS,
};
use banqi_engine::inference::tensor::{split_chunks, split_rows};

fn bits(values: &[f32]) -> Vec<u32> {
    values.iter().map(|v| v.to_bits()).collect()
}

#[test]
fn filler_is_negative_infinity() {
    assert_eq!(f32::from_bits(NEG_INFINITY_BITS), f32::NEG_INFINITY);
}

#[test]
fn dims_come_from_the_first_environment() {
    let lead = LeadEnv { board_shape: vec![16, 4, 8], scalar_count: 56, action_space: 352 };
    assert_eq!(
        batch_dims(3, &lead),
        BatchDims { batch: 3, channels: 16, rows: 4, cols: 8, scalars: 56 }
    );
}

#[test]
fn features_are_laid_out_one_environment_after_another() {
    let envs = [
        EncodedEnv { board: bits(&[1.0, 2.0]), scalars: bits(&[0.5]) },
        EncodedEnv { board: bits(&[3.0, 4.0]), scalars: bits(&[-0.5]) },
    ];
    let (board, scalars) = encode_batch(&envs);
    assert_eq!(board, bits(&[1.0, 2.0, 3.0, 4.0]));
    assert_eq!(scalars, bits(&[0.5, -0.5]));
    assert_eq!(board[2..4], envs[1].board[..]);
    assert_eq!(encode_batch(&[]), (vec![], vec![]));
}

#[test]
fn an_empty_output_holds_nothing() {
    let output = empty_output();
    assert!(output.logits.is_empty());
    assert!(output.values.is_empty());
    assert_eq!(output.health, None);
}

#[test]
fn a_narrow_row_is_filled_up() {
    let mut warned = false;
    let row = align_row(&bits(&[1.0, -2.0]), 4, 2, &mut warned);
    assert_eq!(row, bits(&[1.0, -2.0, f32::NEG_INFINITY, f32::NEG_INFINITY]));
    assert!(warned);
}

#[test]
fn a_wide_row_is_cut() {
    let mut warned = false;
    let row = align_row(&bits(&[1.0, 2.0, 3.0]), 2, 3, &mut warned);
    assert_eq!(row, bits(&[1.0, 2.0]));
    assert!(warned);
}

#[test]
fn a_fitting_row_is_left_alone() {
    let mut warned = false;
    let row = align_row(&bits(&[1.0, 2.0, 3.0]), 3, 3, &mut warned);
    assert_eq!(row, bits(&[1.0, 2.0, 3.0]));
    assert!(!warned);
    let mut raised = true;
    align_row(&bits(&[1.0]), 1, 1, &mut raised);
    assert!(raised);
}

#[test]
fn flat_logits_are_split_and_aligned() {
    let evaluation = output_from_flat_logits(
        &bits(&[1.0, 2.0, 3.0, 4.0]),
        2,
        2,
        3,
        bits(&[0.25, -0.25]),
        Some(vec![bits(&[9.0]), bits(&[8.0])]),
    )
    .unwrap();
    assert_eq!(
        evaluation.output.logits,
        vec![
            bits(&[1.0, 2.0, f32::NEG_INFINITY]),
            bits(&[3.0, 4.0, f32::NEG_INFINITY]),
        ]
    );
    assert_eq!(evaluation.output.values, bits(&[0.25, -0.25]));
    assert_eq!(evaluation.output.health, Some(vec![bits(&[9.0]), bits(&[8.0])]));
    assert_eq!(
        evaluation.width_mismatch,
        Some(WidthMismatch { model_action: 2, action_space: 3 })
    );
}

#[test]
fn flat_logits_beyond_the_batch_are_ignored() {
    let evaluation =
        output_from_flat_logits(&[1, 2, 3, 4, 5, 6], 2, 2, 2, vec![7, 8], None).unwrap();
    assert_eq!(evaluation.output.logits, vec![vec![1, 2], vec![3, 4]]);
    assert_eq!(evaluation.width_mismatch, None);
}

#[test]
fn flat_logits_have_to_cover_the_batch() {
    for flat in [vec![], vec![1, 2], vec![1, 2, 3]] {
        for (action_space, expected) in [(0, 4), (1, 4), (2, 5), (3, 6), (4, 6)] {
            match output_from_flat_logits(&flat, 3, 2, action_space, vec![7, 8], None) {
                Err(EvaluatorError::ShortLogits { len, needed }) => {
                    assert_eq!(len, flat.len());
                    assert_eq!(needed, expected);
                }
                other => panic!("short logits have to be refused: {other:?}"),
            }
        }
    }
    let r = output_from_flat_logits(&[1, 2, 3, 4, 5], 3, 2, 3, vec![7, 8], None);
    assert!(matches!(r, Err(EvaluatorError::ShortLogits { len: 5, needed: 6 })));
    let r = output_from_flat_logits(&[1], usize::MAX, 2, 2, vec![7, 8], None);
    assert!(matches!(r, Err(EvaluatorError::ShortLogits { len: 1, .. })));
}

#[test]
fn a_short_last_row_may_hold_what_is_kept_of_it() {
    let evaluation =
        output_from_flat_logits(&[1, 2, 3, 4, 5, 6], 4, 2, 2, vec![7, 8], None).unwrap();
    assert_eq!(evaluation.output.logits, vec![vec![1, 2], vec![5, 6]]);
    assert_eq!(
        evaluation.width_mismatch,
        Some(WidthMismatch { model_action: 4, action_space: 2 })
    );
    let single = output_from_flat_logits(&[1, 2], 4, 1, 2, vec![7], None).unwrap();
    assert_eq!(single.output.logits, vec![vec![1, 2]]);
    assert_eq!(single.width_mismatch, Some(WidthMismatch { model_action: 4, action_space: 2 }));
    let nothing_kept = output_from_flat_logits(&[1, 2, 3], 2, 2, 0, vec![7, 8], None).unwrap();
    assert_eq!(nothing_kept.output.logits, vec![vec![0u32; 0]; 2]);
    let no_envs = output_from_flat_logits(&[], 4, 0, 2, vec![], None).unwrap();
    assert!(no_envs.output.logits.is_empty());
}

#[test]
fn flat_logits_need_an_action_dimension() {
    let r = output_from_flat_logits(&[1, 2], 0, 2, 2, vec![7], None);
    assert!(matches!(r, Err(EvaluatorError::MissingActionDim)));
}

#[test]
fn flat_logits_need_one_value_per_environment() {
    let r = output_from_flat_logits(&[1, 2], 2, 1, 2, vec![7, 8, 9], None);
    assert!(matches!(r, Err(EvaluatorError::ValueLength { len: 3, batch: 1 })));
}

#[test]
fn row_logits_are_aligned() {
    let rows = [bits(&[1.0, 2.0]), bits(&[3.0, 4.0])];
    let evaluation = output_from_row_logits(&rows, 2, 1, bits(&[0.5, 0.75]), None).unwrap();
    assert_eq!(evaluation.output.logits, vec![bits(&[1.0]), bits(&[3.0])]);
    assert_eq!(evaluation.output.values, bits(&[0.5, 0.75]));
    assert_eq!(evaluation.output.health, None);
    assert_eq!(
        evaluation.width_mismatch,
        Some(WidthMismatch { model_action: 2, action_space: 1 })
    );
}

#[test]
fn row_logits_need_an_action_dimension() {
    let r = output_from_row_logits(&[], 0, 2, vec![], None);
    assert!(matches!(r, Err(EvaluatorError::MissingActionDim)));
    let r = output_from_row_logits(&[vec![], vec![1]], 2, 2, vec![7, 8], None);
    assert!(matches!(r, Err(EvaluatorError::MissingActionDim)));
}

#[test]
fn row_logits_have_to_match_the_batch() {
    let r = output_from_row_logits(&[vec![1]], 2, 1, vec![7, 8], None);
    assert!(matches!(r, Err(EvaluatorError::RowCount { rows: 1, values: 2, batch: 2 })));
    let r = output_from_row_logits(&[vec![1], vec![2]], 2, 1, vec![7], None);
    assert!(matches!(r, Err(EvaluatorError::RowCount { rows: 2, values: 1, batch: 2 })));
}

#[test]
fn row_logits_have_to_hold_what_is_kept_of_them() {
    let rows = [bits(&[1.0, 2.0]), bits(&[3.0])];
    let r = output_from_row_logits(&rows, 2, 2, bits(&[0.5, 0.75]), None);
    assert!(matches!(r, Err(EvaluatorError::ShortRow { row: 1, len: 1, kept: 2 })));
    let r = output_from_row_logits(&rows, 2, 5, bits(&[0.5, 0.75]), None);
    assert!(matches!(r, Err(EvaluatorError::ShortRow { row: 1, len: 1, kept: 2 })));
    let kept = output_from_row_logits(&rows, 2, 1, bits(&[0.5, 0.75]), None).unwrap();
    assert_eq!(kept.output.logits, vec![bits(&[1.0]), bits(&[3.0])]);
    let rows = [vec![1, 2, 3], vec![4, 5, 6], vec![], vec![7]];
    let r = output_from_row_logits(&rows, 4, 3, vec![0, 0, 0, 0], None);
    assert!(matches!(r, Err(EvaluatorError::ShortRow { row: 2, len: 0, kept: 3 })));
}

#[test]
fn flat_and_row_logits_make_the_same_evaluation() {
    let flat = [1, 2, 3, 4, 5, 6];
    let rows = [vec![1, 2, 3], vec![4, 5, 6]];
    for action_space in 0..6 {
        let a = output_from_flat_logits(&flat, 3, 2, action_space, vec![7, 8], None).unwrap();
        let b = output_from_row_logits(&rows, 2, action_space, vec![7, 8], None).unwrap();
        assert_eq!(a, b);
        assert!(a.output.logits.iter().all(|row| row.len() == action_space));
        assert!(output_from_flat_logits(&flat, 3, 2, action_space, vec![7], None).is_err());
        assert!(output_from_row_logits(&rows, 2, action_space, vec![7], None).is_err());
    }
    let rows = [vec![1, 2, 3], vec![4, 5]];
    for action_space in 0..6 {
        let a = output_from_flat_logits(&flat[..5], 3, 2, action_space, vec![7, 8], None);
        let b = output_from_row_logits(&rows, 2, action_space, vec![7, 8], None);
        match (a, b) {
            (Ok(a), Ok(b)) => {
                assert!(action_space <= 2);
                assert_eq!(a, b);
            }
            (Err(_), Err(_)) => assert!(action_space > 2),
            _ => panic!("only one form made an evaluation"),
        }
    }
}

#[test]
fn rows_are_split_in_order() {
    assert_eq!(split_rows(&[1, 2, 3, 4, 5], 2, 2), vec![vec![1, 2], vec![3, 4]]);
    assert_eq!(split_rows(&[1, 2, 3, 4, 5, 6], 2, 3).concat(), vec![1, 2, 3, 4, 5, 6]);
    assert!(split_rows(&[1, 2], 2, 0).is_empty());
    assert_eq!(split_rows(&[], 0, 2), vec![vec![0u32; 0]; 2]);
    assert_eq!(split_chunks(&[1, 2, 3, 4, 5], 2, 2), vec![vec![1, 2], vec![3, 4]]);
    assert_eq!(split_chunks(&[1, 2, 3], 2, 2), vec![vec![1, 2], vec![3]]);
    assert_eq!(split_chunks(&[1, 2], 2, 2), vec![vec![1, 2], vec![]]);
    assert!(split_chunks(&[1], usize::MAX, 0).is_empty());
    assert_eq!(split_chunks(&[1], usize::MAX, 1), vec![vec![1]]);
}

#[test]
fn the_notice_names_both_widths() {
    let notice = WidthMismatch { model_action: 40, action_space: 352 }.message();
    assert_eq!(
        notice,
        "⚠️ [evaluator] 模型动作维度 40 与环境动作空间 352 不一致：按 min 截断并补 -inf"
    );
}
