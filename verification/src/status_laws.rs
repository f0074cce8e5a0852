//! Laws on how Amazon's status and event codes are read.

use vstd::prelude::*;
use crate::carriers::amazon::mapped_status;
use crate::text::{has_substring, occurs_at, uppercase_of};

verus! {

/// A text holds no longer text.
proof fn lemma_too_long(hay: Seq<char>, needle: Seq<char>)
    requires
        needle.len() > hay.len(),
    ensures
        !has_substring(hay, needle),
{
}

proof fn lemma_undeliverable_lacks_delivered()
    ensures
        !has_substring("UNDELIVERABLE"@, "DELIVERED"@),
{
    reveal_strlit("UNDELIVERABLE");
    reveal_strlit("DELIVERED");
    assert forall|i: int| !occurs_at("UNDELIVERABLE"@, "DELIVERED"@, i) by {
        if occurs_at("UNDELIVERABLE"@, "DELIVERED"@, i) {
            if i == 0 {
                assert("UNDELIVERABLE"@.subrange(i, i + 9)[0] == "DELIVERED"@[0]);
            } else if i == 1 {
                assert("UNDELIVERABLE"@.subrange(i, i + 9)[0] == "DELIVERED"@[0]);
            } else if i == 2 {
                assert("UNDELIVERABLE"@.subrange(i, i + 9)[7] == "DELIVERED"@[7]);
            } else if i == 3 {
                assert("UNDELIVERABLE"@.subrange(i, i + 9)[0] == "DELIVERED"@[0]);
            } else if i == 4 {
                assert("UNDELIVERABLE"@.subrange(i, i + 9)[0] == "DELIVERED"@[0]);
            }
        }
    }
}

proof fn lemma_delivery_attempted_lacks_delivered()
    ensures
        !has_substring("DELIVERY_ATTEMPTED"@, "DELIVERED"@),
{
    reveal_strlit("DELIVERY_ATTEMPTED");
    reveal_strlit("DELIVERED");
    assert forall|i: int| !occurs_at("DELIVERY_ATTEMPTED"@, "DELIVERED"@, i) by {
        if occurs_at("DELIVERY_ATTEMPTED"@, "DELIVERED"@, i) {
            if i == 0 {
                assert("DELIVERY_ATTEMPTED"@.subrange(i, i + 9)[7] == "DELIVERED"@[7]);
            } else if i == 1 {
                assert("DELIVERY_ATTEMPTED"@.subrange(i, i + 9)[0] == "DELIVERED"@[0]);
            } else if i == 2 {
                assert("DELIVERY_ATTEMPTED"@.subrange(i, i + 9)[0] == "DELIVERED"@[0]);
            } else if i == 3 {
                assert("DELIVERY_ATTEMPTED"@.subrange(i, i + 9)[0] == "DELIVERED"@[0]);
            } else if i == 4 {
                assert("DELIVERY_ATTEMPTED"@.subrange(i, i + 9)[0] == "DELIVERED"@[0]);
            } else if i == 5 {
                assert("DELIVERY_ATTEMPTED"@.subrange(i, i + 9)[0] == "DELIVERED"@[0]);
            } else if i == 6 {
                assert("DELIVERY_ATTEMPTED"@.subrange(i, i + 9)[0] == "DELIVERED"@[0]);
            } else if i == 7 {
                assert("DELIVERY_ATTEMPTED"@.subrange(i, i + 9)[0] == "DELIVERED"@[0]);
            } else if i == 8 {
                assert("DELIVERY_ATTEMPTED"@.subrange(i, i + 9)[0] == "DELIVERED"@[0]);
            } else if i == 9 {
                assert("DELIVERY_ATTEMPTED"@.subrange(i, i + 9)[0] == "DELIVERED"@[0]);
            }
        }
    }
}

proof fn lemma_delivery_attempted_lacks_out_for_delivery()
    ensures
        !has_substring("DELIVERY_ATTEMPTED"@, "OUT_FOR_DELIVERY"@),
{
    reveal_strlit("DELIVERY_ATTEMPTED");
    reveal_strlit("OUT_FOR_DELIVERY");
    assert forall|i: int| !occurs_at("DELIVERY_ATTEMPTED"@, "OUT_FOR_DELIVERY"@, i) by {
        if occurs_at("DELIVERY_ATTEMPTED"@, "OUT_FOR_DELIVERY"@, i) {
            if i == 0 {
                assert("DELIVERY_ATTEMPTED"@.subrange(i, i + 16)[0] == "OUT_FOR_DELIVERY"@[0]);
            } else if i == 1 {
                assert("DELIVERY_ATTEMPTED"@.subrange(i, i + 16)[0] == "OUT_FOR_DELIVERY"@[0]);
            } else if i == 2 {
                assert("DELIVERY_ATTEMPTED"@.subrange(i, i + 16)[0] == "OUT_FOR_DELIVERY"@[0]);
            }
        }
    }
}

proof fn lemma_returning_lacks_delivered()
    ensures
        !has_substring("RETURNING"@, "DELIVERED"@),
{
    reveal_strlit("RETURNING");
    reveal_strlit("DELIVERED");
    assert forall|i: int| !occurs_at("RETURNING"@, "DELIVERED"@, i) by {
        if occurs_at("RETURNING"@, "DELIVERED"@, i) {
            if i == 0 {
                assert("RETURNING"@.subrange(i, i + 9)[0] == "DELIVERED"@[0]);
            }
        }
    }
}

proof fn lemma_manifested_lacks_delivered()
    ensures
        !has_substring("MANIFESTED"@, "DELIVERED"@),
{
    reveal_strlit("MANIFESTED");
    reveal_strlit("DELIVERED");
    assert forall|i: int| !occurs_at("MANIFESTED"@, "DELIVERED"@, i) by {
        if occurs_at("MANIFESTED"@, "DELIVERED"@, i) {
            if i == 0 {
                assert("MANIFESTED"@.subrange(i, i + 9)[0] == "DELIVERED"@[0]);
            } else if i == 1 {
                assert("MANIFESTED"@.subrange(i, i + 9)[0] == "DELIVERED"@[0]);
            }
        }
    }
}

proof fn lemma_order_received_lacks_delivered()
    ensures
        !has_substring("ORDER_RECEIVED"@, "DELIVERED"@),
{
    reveal_strlit("ORDER_RECEIVED");
    reveal_strlit("DELIVERED");
    assert forall|i: int| !occurs_at("ORDER_RECEIVED"@, "DELIVERED"@, i) by {
        if occurs_at("ORDER_RECEIVED"@, "DELIVERED"@, i) {
            if i == 0 {
                assert("ORDER_RECEIVED"@.subrange(i, i + 9)[0] == "DELIVERED"@[0]);
            } else if i == 1 {
                assert("ORDER_RECEIVED"@.subrange(i, i + 9)[0] == "DELIVERED"@[0]);
            } else if i == 2 {
                assert("ORDER_RECEIVED"@.subrange(i, i + 9)[2] == "DELIVERED"@[2]);
            } else if i == 3 {
                assert("ORDER_RECEIVED"@.subrange(i, i + 9)[0] == "DELIVERED"@[0]);
            } else if i == 4 {
                assert("ORDER_RECEIVED"@.subrange(i, i + 9)[0] == "DELIVERED"@[0]);
            } else if i == 5 {
                assert("ORDER_RECEIVED"@.subrange(i, i + 9)[0] == "DELIVERED"@[0]);
            }
        }
    }
}

proof fn lemma_shipping_label_created_lacks_delivered()
    ensures
        !has_substring("SHIPPING_LABEL_CREATED"@, "DELIVERED"@),
{
    reveal_strlit("SHIPPING_LABEL_CREATED");
    reveal_strlit("DELIVERED");
    assert forall|i: int| !occurs_at("SHIPPING_LABEL_CREATED"@, "DELIVERED"@, i) by {
        if occurs_at("SHIPPING_LABEL_CREATED"@, "DELIVERED"@, i) {
            if i == 0 {
                assert("SHIPPING_LABEL_CREATED"@.subrange(i, i + 9)[0] == "DELIVERED"@[0]);
            } else if i == 1 {
                assert("SHIPPING_LABEL_CREATED"@.subrange(i, i + 9)[0] == "DELIVERED"@[0]);
            } else if i == 2 {
                assert("SHIPPING_LABEL_CREATED"@.subrange(i, i + 9)[0] == "DELIVERED"@[0]);
            } else if i == 3 {
                assert("SHIPPING_LABEL_CREATED"@.subrange(i, i + 9)[0] == "DELIVERED"@[0]);
            } else if i == 4 {
                assert("SHIPPING_LABEL_CREATED"@.subrange(i, i + 9)[0] == "DELIVERED"@[0]);
            } else if i == 5 {
                assert("SHIPPING_LABEL_CREATED"@.subrange(i, i + 9)[0] == "DELIVERED"@[0]);
            } else if i == 6 {
                assert("SHIPPING_LABEL_CREATED"@.subrange(i, i + 9)[0] == "DELIVERED"@[0]);
            } else if i == 7 {
                assert("SHIPPING_LABEL_CREATED"@.subrange(i, i + 9)[0] == "DELIVERED"@[0]);
            } else if i == 8 {
                assert("SHIPPING_LABEL_CREATED"@.subrange(i, i + 9)[0] == "DELIVERED"@[0]);
            } else if i == 9 {
                assert("SHIPPING_LABEL_CREATED"@.subrange(i, i + 9)[0] == "DELIVERED"@[0]);
            } else if i == 10 {
                assert("SHIPPING_LABEL_CREATED"@.subrange(i, i + 9)[0] == "DELIVERED"@[0]);
            } else if i == 11 {
                assert("SHIPPING_LABEL_CREATED"@.subrange(i, i + 9)[0] == "DELIVERED"@[0]);
            } else if i == 12 {
                assert("SHIPPING_LABEL_CREATED"@.subrange(i, i + 9)[0] == "DELIVERED"@[0]);
            } else if i == 13 {
                assert("SHIPPING_LABEL_CREATED"@.subrange(i, i + 9)[0] == "DELIVERED"@[0]);
            }
        }
    }
}

proof fn lemma_shipping_label_created_lacks_out_for_delivery()
    ensures
        !has_substring("SHIPPING_LABEL_CREATED"@, "OUT_FOR_DELIVERY"@),
{
    reveal_strlit("SHIPPING_LABEL_CREATED");
    reveal_strlit("OUT_FOR_DELIVERY");
    assert forall|i: int| !occurs_at("SHIPPING_LABEL_CREATED"@, "OUT_FOR_DELIVERY"@, i) by {
        if occurs_at("SHIPPING_LABEL_CREATED"@, "OUT_FOR_DELIVERY"@, i) {
            if i == 0 {
                assert("SHIPPING_LABEL_CREATED"@.subrange(i, i + 16)[0] == "OUT_FOR_DELIVERY"@[0]);
            } else if i == 1 {
                assert("SHIPPING_LABEL_CREATED"@.subrange(i, i + 16)[0] == "OUT_FOR_DELIVERY"@[0]);
            } else if i == 2 {
                assert("SHIPPING_LABEL_CREATED"@.subrange(i, i + 16)[0] == "OUT_FOR_DELIVERY"@[0]);
            } else if i == 3 {
                assert("SHIPPING_LABEL_CREATED"@.subrange(i, i + 16)[0] == "OUT_FOR_DELIVERY"@[0]);
            } else if i == 4 {
                assert("SHIPPING_LABEL_CREATED"@.subrange(i, i + 16)[0] == "OUT_FOR_DELIVERY"@[0]);
            } else if i == 5 {
                assert("SHIPPING_LABEL_CREATED"@.subrange(i, i + 16)[0] == "OUT_FOR_DELIVERY"@[0]);
            } else if i == 6 {
                assert("SHIPPING_LABEL_CREATED"@.subrange(i, i + 16)[0] == "OUT_FOR_DELIVERY"@[0]);
            }
        }
    }
}

/// The codes of a failed delivery (undeliverable, delivery attempted,
/// rejected, lost, damaged, returned, returning), in any case, read as an
/// exception.
pub proof fn law_amazon_exception_codes(code: Seq<char>)
    requires
        uppercase_of(code) == "UNDELIVERABLE"@ || uppercase_of(code) == "DELIVERY_ATTEMPTED"@ || uppercase_of(code) == "REJECTED"@ || uppercase_of(code) == "LOST"@ || uppercase_of(code) == "DAMAGED"@ || uppercase_of(code) == "RETURNED"@ || uppercase_of(code) == "RETURNING"@,
    ensures
        mapped_status(code) == "Exception"@,
{
    reveal_strlit("UNDELIVERABLE");
    reveal_strlit("DELIVERY_ATTEMPTED");
    reveal_strlit("REJECTED");
    reveal_strlit("LOST");
    reveal_strlit("DAMAGED");
    reveal_strlit("RETURNED");
    reveal_strlit("RETURNING");
    reveal_strlit("CREATED");
    reveal_strlit("MANIFESTED");
    reveal_strlit("ORDER_RECEIVED");
    reveal_strlit("SHIPPING_LABEL_CREATED");
    reveal_strlit("DELIVERED");
    reveal_strlit("OUT_FOR_DELIVERY");
    lemma_undeliverable_lacks_delivered();
    lemma_too_long("UNDELIVERABLE"@, "OUT_FOR_DELIVERY"@);
    lemma_delivery_attempted_lacks_delivered();
    lemma_delivery_attempted_lacks_out_for_delivery();
    lemma_too_long("REJECTED"@, "DELIVERED"@);
    lemma_too_long("REJECTED"@, "OUT_FOR_DELIVERY"@);
    lemma_too_long("LOST"@, "DELIVERED"@);
    lemma_too_long("LOST"@, "OUT_FOR_DELIVERY"@);
    lemma_too_long("DAMAGED"@, "DELIVERED"@);
    lemma_too_long("DAMAGED"@, "OUT_FOR_DELIVERY"@);
    lemma_too_long("RETURNED"@, "DELIVERED"@);
    lemma_too_long("RETURNED"@, "OUT_FOR_DELIVERY"@);
    lemma_returning_lacks_delivered();
    lemma_too_long("RETURNING"@, "OUT_FOR_DELIVERY"@);
    assert("DAMAGED"@[0] != "CREATED"@[0]);
    assert("UNDELIVERABLE"@.len() != "MANIFESTED"@.len());
    assert("UNDELIVERABLE"@.len() != "ORDER_RECEIVED"@.len());
    assert("DELIVERY_ATTEMPTED"@.len() != "MANIFESTED"@.len());
    assert("DELIVERY_ATTEMPTED"@.len() != "ORDER_RECEIVED"@.len());
    assert("DELIVERY_ATTEMPTED"@.len() != "CREATED"@.len());
    assert("DELIVERY_ATTEMPTED"@.len() != "SHIPPING_LABEL_CREATED"@.len());
}

/// The codes of a parcel not yet shipped (created, manifested, order
/// received, shipping label created), in any case, read as information
/// received.
pub proof fn law_amazon_created_codes(code: Seq<char>)
    requires
        uppercase_of(code) == "CREATED"@ || uppercase_of(code) == "MANIFESTED"@ || uppercase_of(code) == "ORDER_RECEIVED"@ || uppercase_of(code) == "SHIPPING_LABEL_CREATED"@,
    ensures
        mapped_status(code) == "InfoReceived"@,
{
    reveal_strlit("UNDELIVERABLE");
    reveal_strlit("DELIVERY_ATTEMPTED");
    reveal_strlit("REJECTED");
    reveal_strlit("LOST");
    reveal_strlit("DAMAGED");
    reveal_strlit("RETURNED");
    reveal_strlit("RETURNING");
    reveal_strlit("CREATED");
    reveal_strlit("MANIFESTED");
    reveal_strlit("ORDER_RECEIVED");
    reveal_strlit("SHIPPING_LABEL_CREATED");
    reveal_strlit("DELIVERED");
    reveal_strlit("OUT_FOR_DELIVERY");
    lemma_too_long("CREATED"@, "DELIVERED"@);
    lemma_too_long("CREATED"@, "OUT_FOR_DELIVERY"@);
    lemma_manifested_lacks_delivered();
    lemma_too_long("MANIFESTED"@, "OUT_FOR_DELIVERY"@);
    lemma_order_received_lacks_delivered();
    lemma_too_long("ORDER_RECEIVED"@, "OUT_FOR_DELIVERY"@);
    lemma_shipping_label_created_lacks_delivered();
    lemma_shipping_label_created_lacks_out_for_delivery();
}

/// A code that mentions "DELIVERED" but not "UNDELIVER" reads as
/// delivered; one that mentions "OUT_FOR_DELIVERY" and not that reads as
/// out for delivery (case aside).
pub proof fn law_amazon_delivery_codes(code: Seq<char>)
    ensures
        has_substring(uppercase_of(code), "DELIVERED"@) && !has_substring(uppercase_of(code), "UNDELIVER"@)
            ==> mapped_status(code) == "Delivered"@,
        !(has_substring(uppercase_of(code), "DELIVERED"@) && !has_substring(uppercase_of(code), "UNDELIVER"@))
            && has_substring(uppercase_of(code), "OUT_FOR_DELIVERY"@) ==> mapped_status(code) == "OutForDelivery"@,
{
}

/// Any other code, in any case, reads as in transit: one that mentions
/// neither delivery nor being out for delivery (a mention of "DELIVERED"
/// within "UNDELIVER…" does not count) and is none of the codes of a
/// parcel not yet shipped or of a failed delivery.
pub proof fn law_amazon_other_codes(code: Seq<char>)
    requires
        !has_substring(uppercase_of(code), "DELIVERED"@) || has_substring(uppercase_of(code), "UNDELIVER"@),
        !has_substring(uppercase_of(code), "OUT_FOR_DELIVERY"@),
        uppercase_of(code) != "CREATED"@,
        uppercase_of(code) != "MANIFESTED"@,
        uppercase_of(code) != "ORDER_RECEIVED"@,
        uppercase_of(code) != "SHIPPING_LABEL_CREATED"@,
        uppercase_of(code) != "UNDELIVERABLE"@,
        uppercase_of(code) != "DELIVERY_ATTEMPTED"@,
        uppercase_of(code) != "REJECTED"@,
        uppercase_of(code) != "LOST"@,
        uppercase_of(code) != "DAMAGED"@,
        uppercase_of(code) != "RETURNED"@,
        uppercase_of(code) != "RETURNING"@,
    ensures
        mapped_status(code) == "InTransit"@,
{
}

} // verus!
