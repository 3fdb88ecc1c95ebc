#![allow(dead_code, unused_imports)]
use sessrums::proto::{Choose, End, Offer, Protocol, Rec, Recv, Send, Var};

#[test]
fn test_rec_protocol_implementation() {
    // This test verifies that Rec<P> implements Protocol
    // and that its Dual is defined as Rec<P::Dual>
    
    // We can't directly test the equality of types in Rust,
    // but we can verify that Rec<End> implements Protocol
    fn assert_implements_protocol<T: Protocol>() {}
    
    // This will compile only if Rec<End> implements Protocol
    assert_implements_protocol::<Rec<End>>();
    
    // We can also verify that the associated type Dual is defined correctly
    fn assert_dual_type<T, D>()
    where
        T: Protocol<Dual = D>,
    {}
    
    // This will compile only if Rec<End>::Dual is Rec<End>
    assert_dual_type::<Rec<End>, Rec<End>>();
}

#[test]
fn test_rec_duality_symmetry() {
    // This test verifies the symmetry of the duality relationship for Rec<P>
    // Rec<P>::Dual is Rec<P::Dual>, and Rec<P::Dual>::Dual is Rec<P>
    
    // Check that Rec<End>::Dual is Rec<End> and Rec<End>::Dual::Dual is Rec<End>
    fn check_duality<P, D>()
    where
        P: Protocol<Dual = D>,
        D: Protocol<Dual = P>,
    {
        // Empty function body - we're just checking type relationships
    }
    
    // This will compile only if the duality relationship is correctly implemented
    check_duality::<Rec<End>, Rec<End>>();
}

#[test]
fn test_rec_with_send_composition() {
    // Test Rec in composition with Send
    
    // A protocol that recursively sends an i32 and then refers back to itself
    type RecSend = Rec<Send<i32, Var<0>>>;
    
    // The dual should be Rec<Recv<i32, Var<0>>>
    type ExpectedDual = Rec<Recv<i32, Var<0>>>;
    
    // Check that the dual relationships are correctly established
    fn check_dual<P, D>()
    where
        P: Protocol<Dual = D>,
        D: Protocol<Dual = P>,
    {
        // Empty function body - we're just checking type relationships
    }
    
    // This will compile only if RecSend's dual is correctly derived
    check_dual::<RecSend, ExpectedDual>();
}

#[test]
fn test_rec_with_complex_composition() {
    // Test Rec in a more complex protocol composition
    
    // A protocol that recursively sends an i32, receives a String, and then refers back to itself
    type ComplexRec = Rec<Send<i32, Recv<String, Var<0>>>>;
    
    // The dual should be Rec<Recv<i32, Send<String, Var<0>>>>
    type ExpectedDual = Rec<Recv<i32, Send<String, Var<0>>>>;
    
    // Check that the dual relationships are correctly established
    fn check_complex_dual<P, D>()
    where
        P: Protocol<Dual = D>,
        D: Protocol<Dual = P>,
    {
        // Empty function body - we're just checking type relationships
    }
    
    // This will compile only if ComplexRec's dual is correctly derived
    check_complex_dual::<ComplexRec, ExpectedDual>();
}

