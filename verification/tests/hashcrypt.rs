use embassy_imxrt::hashcrypt::{Algorithm, CtrlWrite, InterruptResponse, interrupt_response, start_algorithm};

#[test]
fn sha256_mode_value() {
    assert_eq!(u8::from(Algorithm::SHA256), 0x2);
}

#[test]
fn starting_a_hash() {
    assert_eq!(
        start_algorithm(Algorithm::SHA256, true),
        vec![
            CtrlWrite { mode: 0, new_hash: true, dma_input: false },
            CtrlWrite { mode: 2, new_hash: true, dma_input: true },
        ]
    );
    assert_eq!(start_algorithm(Algorithm::SHA256, false)[1].dma_input, false);
}

#[test]
fn interrupt_handling() {
    assert_eq!(
        interrupt_response(true, false),
        InterruptResponse { disable_error: true, disable_digest: false, wake: true }
    );
    assert_eq!(
        interrupt_response(false, false),
        InterruptResponse { disable_error: false, disable_digest: false, wake: false }
    );
    assert_eq!(interrupt_response(true, true).wake, true);
}
