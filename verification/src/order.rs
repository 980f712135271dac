use vstd::prelude::*;
use crate::codec::{fixed_units, to_fixed_u128, to_ieee_754_int};
use crate::decimal::{
    dec_render, lemma_pow10_adds, lemma_pow10_monotone, pow10, push_dec_render, Dec,
    MANTISSA_LIMIT,
};
use crate::error::{dec_str, push_decimal_value, Error};
use vstd::string::StringExecFns;
use crate::types::{Address, LimitOrderRequest, OrderRecord, OrderType, Side, SignatureType, TickSize};

verus! {

/// Lot size: sizes carry at most two fractional decimal digits.
pub const LOT_SIZE_SCALE: u32 = 2;

pub open spec fn effective_order_type(req: LimitOrderRequest) -> OrderType {
    match req.order_type {
        Some(t) => t,
        None => OrderType::GTC,
    }
}

/// The requested expiration in unix seconds; unset means zero.
pub open spec fn effective_expiration(req: LimitOrderRequest) -> int {
    match req.expiration {
        Some(t) => t as int,
        None => 0,
    }
}

pub open spec fn effective_nonce(req: LimitOrderRequest) -> u64 {
    match req.nonce {
        Some(n) => n,
        None => 0,
    }
}

pub open spec fn effective_taker(req: LimitOrderRequest) -> Address {
    match req.taker {
        Some(a) => a,
        None => Address::zero_spec(),
    }
}

pub open spec fn effective_post_only(req: LimitOrderRequest) -> bool {
    match req.post_only {
        Some(p) => p,
        None => false,
    }
}

/// The price expressed in whole ticks: `price * 10^k` for tick `10^-k`.
/// Meaningful when the price's scale is at most `k`.
pub open spec fn price_in_ticks(price: Dec, k: u32) -> int {
    price.mantissa as int * pow10((k - price.scale) as nat) as int
}

/// The message of the first violated validation rule, or `None` when the
/// request builds. Rules are checked in this order: expiration only for
/// good-till-date, post-only only for GTC/GTD, non-negative price, positive
/// size, lot-size scale, price scale at most the tick scale, price within
/// `[tick, 1 - tick]`, representable product, representable expiration.
pub open spec fn build_error_message(req: LimitOrderRequest, k: u32) -> Option<Seq<char>> {
    let ot = effective_order_type(req);
    if !(ot is GTD) && effective_expiration(req) > 0 {
        Some("Only GTD orders may have a non-zero expiration"@)
    } else if effective_post_only(req) && !(ot is GTC || ot is GTD) {
        Some("postOnly is only supported for GTC and GTD orders"@)
    } else if req.price.negative {
        Some("Unable to build Order due to negative price "@ + dec_render(req.price))
    } else if req.size.mantissa == 0 || req.size.negative {
        Some("Unable to build Order due to non-positive size "@ + dec_render(req.size))
    } else if req.size.scale > LOT_SIZE_SCALE {
        Some(
            "Unable to build Order: size "@ + dec_render(req.size) + " has "@ + dec_str(
                req.size.scale as nat,
            ) + " decimal places; maximum lot size is 2"@,
        )
    } else if req.price.scale > k {
        Some(
            "Unable to build Order: price "@ + dec_render(req.price) + " has "@ + dec_str(
                req.price.scale as nat,
            ) + " decimal places, more than the minimum tick size's "@ + dec_str(k as nat),
        )
    } else if price_in_ticks(req.price, k) < 1 || price_in_ticks(req.price, k) > pow10(k as nat)
        - 1 {
        Some(
            "Price "@ + dec_render(req.price)
                + " is too small or too large for the minimum tick size "@ + dec_render(
                Dec { negative: false, mantissa: 1, scale: k },
            ),
        )
    } else if req.size.mantissa as int * req.price.mantissa as int >= MANTISSA_LIMIT {
        Some("price times size is not representable"@)
    } else if effective_expiration(req) < 0 {
        Some("Unable to represent expiration as a u64"@)
    } else {
        None
    }
}

/// The exact six-decimal fixed-point image of `mantissa / 10^scale` when the
/// scale does not exceed six digits: no truncation happens at all.
pub proof fn lemma_fixed_units_exact(m: u128, s: u32)
    requires
        s <= 6,
    ensures
        fixed_units(m, s) == m as int * pow10((6 - s) as nat) as int,
{
    let e = (6 - s) as nat;
    lemma_pow10_adds(e, s as nat);
    lemma_pow10_monotone(0, e);
    lemma_pow10_monotone(0, s as nat);
    assert(m as int * pow10(6) as int == pow10(s as nat) as int * (m as int * pow10(e) as int))
        by (nonlinear_arith)
        requires
            pow10(6) == pow10(e) * pow10(s as nat),
    ;
    vstd::arithmetic::div_mod::lemma_div_multiples_vanish(
        m as int * pow10(e) as int,
        pow10(s as nat) as int,
    );
}

/// Padding a decimal with trailing zeros does not change its fixed-point
/// image.
proof fn lemma_fixed_units_pad(m: u128, s: u32, mp: u128, sp: u32)
    requires
        s <= sp,
        mp as int == m as int * pow10((sp - s) as nat),
    ensures
        fixed_units(mp, sp) == fixed_units(m, s),
{
    let a = (sp - s) as nat;
    lemma_pow10_adds(a, s as nat);
    lemma_pow10_monotone(0, a);
    lemma_pow10_monotone(0, s as nat);
    lemma_pow10_monotone(0, 6);
    vstd::arithmetic::div_mod::lemma_div_multiples_vanish_quotient(
        pow10(a) as int,
        m as int * pow10(6) as int,
        pow10(s as nat) as int,
    );
    assert(m as int * pow10(6) as int >= 0) by (nonlinear_arith)
        requires
            m as int >= 0 && pow10(6) as int >= 1,
    ;
    assert(mp as int * pow10(6) as int == pow10(a) as int * (m as int * pow10(6) as int))
        by (nonlinear_arith)
        requires
            mp as int == m as int * pow10(a),
    ;
    assert(pow10(sp as nat) as int == pow10(a) as int * pow10(s as nat) as int);
}

/// The derived integer amounts reconstruct price times size exactly: because
/// the price scale is bounded by the tick scale and the size scale by the lot
/// size, truncation to `tick decimals + 2` digits discards nothing.
pub proof fn lemma_amounts_reconstruct(size_m: u128, size_s: u32, price_m: u128, price_s: u32)
    requires
        size_s + price_s <= 6,
        (size_m as int * price_m as int) < MANTISSA_LIMIT,
    ensures
        fixed_units((size_m as int * price_m as int) as u128, (size_s + price_s) as u32) * pow10(
            (size_s + price_s) as nat,
        ) == size_m as int * price_m as int * pow10(6),
        fixed_units((size_m as int * price_m as int) as u128, (size_s + price_s) as u32) >= 0,
{
    let pm = (size_m as int * price_m as int) as u128;
    let ps = (size_s + price_s) as u32;
    lemma_fixed_units_exact(pm, ps);
    let e = (6 - ps) as nat;
    lemma_pow10_adds(e, ps as nat);
    lemma_pow10_monotone(0, e);
    lemma_pow10_monotone(0, ps as nat);
    assert((pm as int * pow10(e) as int) * pow10(ps as nat) as int == pm as int * pow10(6) as int)
        by (nonlinear_arith)
        requires
            pow10(6) == pow10(e) * pow10(ps as nat),
    ;
    assert(pm as int * pow10(e) as int >= 0) by (nonlinear_arith)
        requires
            pm as int >= 0 && pow10(e) as int >= 1,
    ;
}

fn pow10_u128_small(e: u32) -> (r: u128)
    requires
        e <= 6,
    ensures
        r == pow10(e as nat),
        1 <= r <= 1000000,
{
    proof {
        reveal_with_fuel(pow10, 8);
        assert(pow10(0) == 1 && pow10(1) == 10 && pow10(2) == 100 && pow10(3) == 1000 && pow10(4)
            == 10000 && pow10(5) == 100000 && pow10(6) == 1000000);
    }
    match e {
        0 => 1,
        1 => 10,
        2 => 100,
        3 => 1000,
        4 => 10000,
        5 => 100000,
        _ => 1000000,
    }
}

/// What a successfully built order record promises: every field is pinned to
/// the request and the resolved policies, the salt is 53-bit bounded, and the
/// integer amounts are the exact fixed-point images of size and of
/// size-times-price (capped only at the edge of the representable domain).
pub open spec fn order_matches_request(
    o: OrderRecord,
    request: LimitOrderRequest,
    fee_rate_bps: u32,
    maker: Address,
    signer: Address,
    signature_type: SignatureType,
    seed: u64,
) -> bool {
    let prod_m = (request.size.mantissa as int * request.price.mantissa as int) as u128;
    let prod_s = (request.size.scale + request.price.scale) as u32;
    &&& o.salt == (seed & 0x1F_FFFF_FFFF_FFFFu64)
    &&& o.salt <= 0x1F_FFFF_FFFF_FFFFu64
    &&& o.maker == maker
    &&& o.signer == signer
    &&& o.taker == effective_taker(request)
    &&& o.token_id == request.token_id
    &&& o.expiration == effective_expiration(request)
    &&& o.nonce == effective_nonce(request)
    &&& o.fee_rate_bps == fee_rate_bps
    &&& o.side == request.side
    &&& o.signature_type == signature_type
    &&& (request.side is Buy ==> o.taker_amount as int <= fixed_units(
        request.size.mantissa,
        request.size.scale,
    ) && o.maker_amount as int <= fixed_units(prod_m, prod_s))
    &&& (request.side is Buy && fixed_units(request.size.mantissa, request.size.scale)
        < MANTISSA_LIMIT ==> o.taker_amount as int == fixed_units(
        request.size.mantissa,
        request.size.scale,
    ))
    &&& (request.side is Buy && fixed_units(prod_m, prod_s) < MANTISSA_LIMIT
        ==> o.maker_amount as int == fixed_units(prod_m, prod_s))
    &&& (request.side is Sell ==> o.maker_amount as int <= fixed_units(
        request.size.mantissa,
        request.size.scale,
    ) && o.taker_amount as int <= fixed_units(prod_m, prod_s))
    &&& (request.side is Sell && fixed_units(request.size.mantissa, request.size.scale)
        < MANTISSA_LIMIT ==> o.maker_amount as int == fixed_units(
        request.size.mantissa,
        request.size.scale,
    ))
    &&& (request.side is Sell && fixed_units(prod_m, prod_s) < MANTISSA_LIMIT
        ==> o.taker_amount as int == fixed_units(prod_m, prod_s))
}

/// Turns a caller's order intent plus resolved policies into a fully
/// populated order record ready for signing, enforcing every business rule.
///
/// `seed` is the caller-supplied salt randomness; the builder masks it to 53
/// bits so the salt survives an IEEE-754 round trip on the exchange side.
pub fn build_order(
    request: &LimitOrderRequest,
    tick_size: TickSize,
    fee_rate_bps: u32,
    maker: Address,
    signer: Address,
    signature_type: SignatureType,
    seed: u64,
) -> (r: Result<OrderRecord, Error>)
    requires
        request.price.wf(),
        request.size.wf(),
    ensures
        r is Err <==> build_error_message(*request, tick_size.decimals_spec()) is Some,
        r matches Err(e) ==> e is Validation && build_error_message(
            *request,
            tick_size.decimals_spec(),
        ) == Some(e.message_spec()),
        r matches Ok(o) ==> order_matches_request(
            o,
            *request,
            fee_rate_bps,
            maker,
            signer,
            signature_type,
            seed,
        ),
{
    let order_type = match request.order_type {
        Some(t) => t,
        None => OrderType::GTC,
    };
    let expiration: i64 = match request.expiration {
        Some(t) => t,
        None => 0,
    };
    let nonce: u64 = match request.nonce {
        Some(n) => n,
        None => 0,
    };
    let taker: Address = match request.taker {
        Some(a) => a,
        None => Address::zero(),
    };
    let post_only: bool = match request.post_only {
        Some(p) => p,
        None => false,
    };

    if !(matches!(order_type, OrderType::GTD)) && expiration > 0 {
        return Err(Error::validation("Only GTD orders may have a non-zero expiration"));
    }
    if post_only && !(matches!(order_type, OrderType::GTC | OrderType::GTD)) {
        return Err(Error::validation("postOnly is only supported for GTC and GTD orders"));
    }

    let price = request.price;
    let size = request.size;

    if price.is_sign_negative() {
        let mut m = String::from_str("Unable to build Order due to negative price ");
        push_dec_render(&mut m, price);
        proof {
            assert(m@ =~= "Unable to build Order due to negative price "@ + dec_render(
                request.price,
            ));
        }
        return Err(Error::Validation(m));
    }
    if size.is_zero() || size.is_sign_negative() {
        let mut m = String::from_str("Unable to build Order due to non-positive size ");
        push_dec_render(&mut m, size);
        proof {
            assert(m@ =~= "Unable to build Order due to non-positive size "@ + dec_render(
                request.size,
            ));
        }
        return Err(Error::Validation(m));
    }
    if size.scale() > LOT_SIZE_SCALE {
        let mut m = String::from_str("Unable to build Order: size ");
        push_dec_render(&mut m, size);
        m.append(" has ");
        push_decimal_value(&mut m, size.scale() as u128);
        m.append(" decimal places; maximum lot size is 2");
        proof {
            assert(m@ =~= "Unable to build Order: size "@ + dec_render(request.size) + " has "@
                + dec_str(request.size.scale as nat)
                + " decimal places; maximum lot size is 2"@);
        }
        return Err(Error::Validation(m));
    }

    let decimals = tick_size.decimals();
    if price.scale() > decimals {
        let mut m = String::from_str("Unable to build Order: price ");
        push_dec_render(&mut m, price);
        m.append(" has ");
        push_decimal_value(&mut m, price.scale() as u128);
        m.append(" decimal places, more than the minimum tick size's ");
        push_decimal_value(&mut m, decimals as u128);
        proof {
            assert(m@ =~= "Unable to build Order: price "@ + dec_render(request.price) + " has "@
                + dec_str(request.price.scale as nat)
                + " decimal places, more than the minimum tick size's "@ + dec_str(
                tick_size.decimals_spec() as nat,
            ));
        }
        return Err(Error::Validation(m));
    }
    let tick_factor = pow10_u128_small(decimals - price.scale());
    proof {
        vstd::arithmetic::mul::lemma_mul_upper_bound(
            price.mantissa as int,
            MANTISSA_LIMIT - 1,
            tick_factor as int,
            1000000,
        );
    }
    let in_ticks: u128 = price.mantissa() * tick_factor;
    let tick_limit: u128 = pow10_u128_small(decimals) - 1;
    if in_ticks < 1 || in_ticks > tick_limit {
        let mut m = String::from_str("Price ");
        push_dec_render(&mut m, price);
        m.append(" is too small or too large for the minimum tick size ");
        let tick_dec = tick_size.as_decimal();
        push_dec_render(&mut m, tick_dec);
        proof {
            assert(m@ =~= "Price "@ + dec_render(request.price)
                + " is too small or too large for the minimum tick size "@ + dec_render(
                Dec { negative: false, mantissa: 1, scale: tick_size.decimals_spec() },
            ));
        }
        return Err(Error::Validation(m));
    }

    let product = match size.checked_times(&price) {
        Some(p) => p,
        None => {
            return Err(Error::validation("price times size is not representable"));
        },
    };
    if expiration < 0 {
        return Err(Error::validation("Unable to represent expiration as a u64"));
    }
    let truncated = product.trunc_with_scale(decimals + LOT_SIZE_SCALE);
    proof {
        lemma_fixed_units_pad(
            product.mantissa,
            product.scale,
            truncated.mantissa,
            truncated.scale,
        );
    }
    let size_amount = match to_fixed_u128(size) {
        Ok(v) => v,
        Err(e) => {
            return Err(e);
        },
    };
    let product_amount = match to_fixed_u128(truncated) {
        Ok(v) => v,
        Err(e) => {
            return Err(e);
        },
    };
    let (taker_amount, maker_amount) = match request.side {
        Side::Buy => (size_amount, product_amount),
        Side::Sell => (product_amount, size_amount),
    };

    Ok(
        OrderRecord {
            salt: to_ieee_754_int(seed),
            maker,
            signer,
            taker,
            token_id: request.token_id,
            maker_amount,
            taker_amount,
            expiration: expiration as u64,
            nonce,
            fee_rate_bps,
            side: request.side,
            signature_type,
        },
    )
}

} // verus!
